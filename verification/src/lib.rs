//! The authentication center for ChatGPT accounts.

pub mod account;
pub mod adoption;
pub mod claims;
pub mod clock;
pub mod error;
pub mod exchange;
pub mod handover;
pub mod identity;
pub mod json;
pub mod laws;
pub mod listing;
pub mod login;
pub mod manager;
pub mod model;
pub mod removal;
pub mod resolution;
pub mod table;
pub mod text;
