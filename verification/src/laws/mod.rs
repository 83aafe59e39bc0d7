//! What holds of the authentication center as a whole.
pub mod accounts;
pub mod handover;
pub mod keys;
pub mod login;
pub mod removal;
pub mod replies;
pub mod resolving;
pub mod sync;
pub mod texts;
