//! Removing one account or all of them, step by step.
//!
//! What the credentials file holds of an account goes first. Where that fails,
//! nothing else is removed.
use crate::error;
use crate::error::CodexOAuthError;
use crate::manager::CodexOAuthManager;
use crate::model;
use crate::text;
use vstd::prelude::*;

verus! {

/// What has happened in the removal of an account.
#[derive(Debug)]
pub enum RemovalEvent {
    /// What the credentials file held of the account was removed, or could not be,
    /// for the reason given.
    Cleared(Result<(), String>),
    /// The accounts were saved, or could not be.
    Saved(Result<(), CodexOAuthError>),
}

/// The model of [`RemovalEvent`].
pub enum RemovalEventModel {
    Cleared(Result<(), Seq<char>>),
    Saved(Result<(), error::ErrorModel>),
}

impl View for RemovalEvent {
    type V = RemovalEventModel;

    open spec fn view(&self) -> RemovalEventModel {
        match self {
            RemovalEvent::Cleared(Ok(_)) => RemovalEventModel::Cleared(Ok(())),
            RemovalEvent::Cleared(Err(reason)) => RemovalEventModel::Cleared(Err(reason@)),
            RemovalEvent::Saved(result) => RemovalEventModel::Saved(error::view_result(*result)),
        }
    }
}

/// What is to be done next in the removal of an account.
#[derive(Debug)]
pub enum RemovalAction {
    /// Remove what the credentials file holds of this account.
    ClearLive(String),
    /// Save the accounts.
    Save,
    /// Return.
    Return(Result<(), CodexOAuthError>),
}

/// The model of [`RemovalAction`].
pub enum RemovalActionModel {
    ClearLive(Seq<char>),
    Save,
    Return(Result<(), error::ErrorModel>),
}

impl View for RemovalAction {
    type V = RemovalActionModel;

    open spec fn view(&self) -> RemovalActionModel {
        match self {
            RemovalAction::ClearLive(account_id) => RemovalActionModel::ClearLive(account_id@),
            RemovalAction::Save => RemovalActionModel::Save,
            RemovalAction::Return(result) => RemovalActionModel::Return(
                error::view_result(*result),
            ),
        }
    }
}

/// What the removal of an account waits for.
#[derive(Debug, Clone, Copy, PartialEq, Eq, Structural)]
pub enum RemovalPhase {
    /// The account is being removed from the credentials file.
    ClearingLive,
    /// The accounts are being saved.
    Saving,
    /// The removal has returned.
    Finished,
}

/// Whether `event` is what a removal in `phase` waits for.
pub open spec fn removal_expected(phase: RemovalPhase, event: RemovalEventModel) -> bool {
    match phase {
        RemovalPhase::ClearingLive => event is Cleared,
        RemovalPhase::Saving => event is Saved,
        RemovalPhase::Finished => false,
    }
}

/// A removal, the accounts, and what is to be done next.
pub type RemovalStep = (RemovalPhase, model::ManagerModel, RemovalActionModel);

/// The error for credentials that could not be removed.
pub open spec fn clear_error(reason: Seq<char>) -> error::ErrorModel {
    error::ErrorModel::IoError(reason)
}

/// Beginning to remove `account_id`.
pub open spec fn first_removal_step(
    account_id: Seq<char>,
    manager: model::ManagerModel,
) -> RemovalStep {
    if manager.has(account_id) {
        (RemovalPhase::ClearingLive, manager, RemovalActionModel::ClearLive(account_id))
    } else {
        (
            RemovalPhase::Finished,
            manager,
            RemovalActionModel::Return(model::not_found(account_id)),
        )
    }
}

/// What follows from `event` in the removal of an account. One that is not expected
/// leaves everything as it is.
pub open spec fn next_removal_step(
    phase: RemovalPhase,
    account_id: Seq<char>,
    manager: model::ManagerModel,
    event: RemovalEventModel,
) -> RemovalStep {
    match (phase, event) {
        (RemovalPhase::ClearingLive, RemovalEventModel::Cleared(Ok(_))) => (
            RemovalPhase::Saving,
            manager.without_account(account_id),
            RemovalActionModel::Save,
        ),
        (RemovalPhase::ClearingLive, RemovalEventModel::Cleared(Err(reason))) => (
            RemovalPhase::Finished,
            manager,
            RemovalActionModel::Return(Err(clear_error(reason))),
        ),
        (RemovalPhase::Saving, RemovalEventModel::Saved(result)) => (
            RemovalPhase::Finished,
            manager,
            RemovalActionModel::Return(result),
        ),
        _ => (phase, manager, RemovalActionModel::Save),
    }
}

/// The removal of an account.
#[derive(Debug)]
pub struct AccountRemoval {
    account_id: String,
    phase: RemovalPhase,
}

impl AccountRemoval {
    /// The account that is removed.
    pub closed spec fn account_id(self) -> Seq<char> {
        self.account_id@
    }

    /// What the removal waits for.
    pub closed spec fn phase(self) -> RemovalPhase {
        self.phase
    }

    /// Begins to remove `account_id`. The first thing to do is to remove it from the
    /// credentials file.
    pub fn begin(manager: &CodexOAuthManager, account_id: &str) -> (result: (Self, RemovalAction))
        ensures
            result.0.account_id() == account_id@,
            (result.0.phase(), manager@, result.1@) == first_removal_step(account_id@, manager@),
    {
        let (phase, action) = match manager.require_account(account_id) {
            Ok(_) => (
                RemovalPhase::ClearingLive,
                RemovalAction::ClearLive(account_id.to_owned()),
            ),
            Err(error) => (RemovalPhase::Finished, RemovalAction::Return(Err(error))),
        };
        (AccountRemoval { account_id: account_id.to_owned(), phase }, action)
    }

    /// Takes `event` in, and says what is to be done next. Where the credentials file
    /// could not be cleared, nothing changes and that is the error.
    pub fn step(&mut self, manager: &mut CodexOAuthManager, event: RemovalEvent) -> (action:
        RemovalAction)
        requires
            removal_expected(old(self).phase(), event@),
        ensures
            final(self).account_id() == old(self).account_id(),
            (final(self).phase(), final(manager)@, action@) == next_removal_step(
                old(self).phase(),
                old(self).account_id(),
                old(manager)@,
                event@,
            ),
            match event@ {
                RemovalEventModel::Cleared(Err(reason)) => final(manager)@ == old(manager)@
                    && action@ == RemovalActionModel::Return(Err(clear_error(reason))),
                _ => true,
            },
    {
        match event {
            RemovalEvent::Cleared(Ok(_)) => {
                manager.drop_account(self.account_id.as_str());
                self.phase = RemovalPhase::Saving;
                RemovalAction::Save
            },
            RemovalEvent::Cleared(Err(reason)) => {
                self.phase = RemovalPhase::Finished;
                RemovalAction::Return(Err(CodexOAuthError::IoError(reason)))
            },
            RemovalEvent::Saved(result) => {
                self.phase = RemovalPhase::Finished;
                RemovalAction::Return(result)
            },
        }
    }
}

/// What has happened in the clearing of everything.
#[derive(Debug)]
pub enum ClearingEvent {
    /// What the credentials file held of the account was removed, or could not be,
    /// for the reason given.
    Cleared(Result<(), String>),
    /// The stored accounts were deleted, or could not be.
    StoreDeleted(Result<(), CodexOAuthError>),
}

/// The model of [`ClearingEvent`].
pub enum ClearingEventModel {
    Cleared(Result<(), Seq<char>>),
    StoreDeleted(Result<(), error::ErrorModel>),
}

impl View for ClearingEvent {
    type V = ClearingEventModel;

    open spec fn view(&self) -> ClearingEventModel {
        match self {
            ClearingEvent::Cleared(Ok(_)) => ClearingEventModel::Cleared(Ok(())),
            ClearingEvent::Cleared(Err(reason)) => ClearingEventModel::Cleared(Err(reason@)),
            ClearingEvent::StoreDeleted(result) => ClearingEventModel::StoreDeleted(
                error::view_result(*result),
            ),
        }
    }
}

/// What is to be done next in the clearing of everything.
#[derive(Debug)]
pub enum ClearingAction {
    /// Remove what the credentials file holds of this account.
    ClearLive(String),
    /// Delete the stored accounts.
    DeleteStore,
    /// Return.
    Return(Result<(), CodexOAuthError>),
}

/// The model of [`ClearingAction`].
pub enum ClearingActionModel {
    ClearLive(Seq<char>),
    DeleteStore,
    Return(Result<(), error::ErrorModel>),
}

impl View for ClearingAction {
    type V = ClearingActionModel;

    open spec fn view(&self) -> ClearingActionModel {
        match self {
            ClearingAction::ClearLive(account_id) => ClearingActionModel::ClearLive(account_id@),
            ClearingAction::DeleteStore => ClearingActionModel::DeleteStore,
            ClearingAction::Return(result) => ClearingActionModel::Return(
                error::view_result(*result),
            ),
        }
    }
}

/// What the clearing of everything waits for.
#[derive(Debug)]
pub enum ClearingPhase {
    /// The account `current` is being removed from the credentials file, and then
    /// those in `rest` are.
    ClearingLive { current: String, rest: Vec<String> },
    /// The stored accounts are being deleted.
    DeletingStore,
    /// The clearing has returned.
    Finished,
}

/// The model of [`ClearingPhase`].
pub enum ClearingPhaseModel {
    ClearingLive { current: Seq<char>, rest: Seq<Seq<char>> },
    DeletingStore,
    Finished,
}

impl View for ClearingPhase {
    type V = ClearingPhaseModel;

    open spec fn view(&self) -> ClearingPhaseModel {
        match self {
            ClearingPhase::ClearingLive { current, rest } => ClearingPhaseModel::ClearingLive {
                current: current@,
                rest: text::texts(rest@),
            },
            ClearingPhase::DeletingStore => ClearingPhaseModel::DeletingStore,
            ClearingPhase::Finished => ClearingPhaseModel::Finished,
        }
    }
}

/// Whether `event` is what a clearing in `phase` waits for.
pub open spec fn clearing_expected(phase: ClearingPhaseModel, event: ClearingEventModel) -> bool {
    match phase {
        ClearingPhaseModel::ClearingLive { .. } => event is Cleared,
        ClearingPhaseModel::DeletingStore => event is StoreDeleted,
        ClearingPhaseModel::Finished => false,
    }
}

/// A clearing, the accounts, and what is to be done next.
pub type ClearingStep = (ClearingPhaseModel, model::ManagerModel, ClearingActionModel);

/// Going on with the accounts that remain in the credentials file, and clearing
/// everything where none does.
pub open spec fn going_on(remaining: Seq<Seq<char>>, manager: model::ManagerModel) -> ClearingStep {
    if remaining.len() > 0 {
        (
            ClearingPhaseModel::ClearingLive { current: remaining[0], rest: remaining.skip(1) },
            manager,
            ClearingActionModel::ClearLive(remaining[0]),
        )
    } else {
        (
            ClearingPhaseModel::DeletingStore,
            manager.cleared(),
            ClearingActionModel::DeleteStore,
        )
    }
}

/// What follows from `event` in the clearing of everything. One that is not expected
/// leaves everything as it is.
pub open spec fn next_clearing_step(
    phase: ClearingPhaseModel,
    manager: model::ManagerModel,
    event: ClearingEventModel,
) -> ClearingStep {
    match (phase, event) {
        (
            ClearingPhaseModel::ClearingLive { rest, .. },
            ClearingEventModel::Cleared(Ok(_)),
        ) => going_on(rest, manager),
        (ClearingPhaseModel::ClearingLive { .. }, ClearingEventModel::Cleared(Err(reason))) => (
            ClearingPhaseModel::Finished,
            manager,
            ClearingActionModel::Return(Err(clear_error(reason))),
        ),
        (ClearingPhaseModel::DeletingStore, ClearingEventModel::StoreDeleted(result)) => (
            ClearingPhaseModel::Finished,
            manager,
            ClearingActionModel::Return(result),
        ),
        _ => (phase, manager, ClearingActionModel::DeleteStore),
    }
}

/// Whether `ids` are the keys of the accounts, each of them once.
pub open spec fn lists_accounts(ids: Seq<Seq<char>>, manager: model::ManagerModel) -> bool {
    ids.no_duplicates() && ids.to_set() == manager.accounts.dom()
}

/// Goes on with the accounts that remain in the credentials file, and clears
/// everything where none does.
fn go_on(manager: &mut CodexOAuthManager, remaining: Vec<String>) -> (step: (
    ClearingPhase,
    ClearingAction,
))
    ensures
        (step.0@, final(manager)@, step.1@) == going_on(text::texts(remaining@), old(manager)@),
{
    if remaining.len() > 0 {
        let mut rest = remaining;
        let current = rest.remove(0);
        let account_id = current.clone();
        assert(text::texts(rest@) =~= text::texts(remaining@).skip(1));
        (ClearingPhase::ClearingLive { current, rest }, ClearingAction::ClearLive(account_id))
    } else {
        manager.clear_auth();
        (ClearingPhase::DeletingStore, ClearingAction::DeleteStore)
    }
}

/// The clearing of everything.
#[derive(Debug)]
pub struct AuthClearing {
    phase: ClearingPhase,
}

impl AuthClearing {
    /// What the clearing waits for.
    pub closed spec fn phase(self) -> ClearingPhaseModel {
        self.phase@
    }

    /// Begins to clear everything. The first thing to do is to remove every account,
    /// in some order, from the credentials file.
    pub fn begin(manager: &mut CodexOAuthManager) -> (result: (Self, ClearingAction))
        ensures
            exists|ids: Seq<Seq<char>>|
                lists_accounts(ids, old(manager)@) && (
                    result.0.phase(),
                    final(manager)@,
                    result.1@,
                ) == #[trigger] going_on(ids, old(manager)@),
    {
        let ids = manager.account_ids();
        let ghost keys = text::texts(ids@);
        assert(lists_accounts(keys, manager@));
        let (phase, action) = go_on(manager, ids);
        (AuthClearing { phase }, action)
    }

    /// Takes `event` in, and says what is to be done next. Where the credentials file
    /// could not be cleared, nothing changes and that is the error.
    pub fn step(&mut self, manager: &mut CodexOAuthManager, event: ClearingEvent) -> (action:
        ClearingAction)
        requires
            clearing_expected(old(self).phase(), event@),
        ensures
            (final(self).phase(), final(manager)@, action@) == next_clearing_step(
                old(self).phase(),
                old(manager)@,
                event@,
            ),
            match event@ {
                ClearingEventModel::Cleared(Err(reason)) => final(manager)@ == old(manager)@
                    && action@ == ClearingActionModel::Return(Err(clear_error(reason))),
                _ => true,
            },
    {
        let mut phase = ClearingPhase::Finished;
        std::mem::swap(&mut phase, &mut self.phase);
        let (next, action) = match (phase, event) {
            (
                ClearingPhase::ClearingLive { current: _, rest },
                ClearingEvent::Cleared(Ok(_)),
            ) => go_on(manager, rest),
            (_, ClearingEvent::Cleared(Err(reason))) => (
                ClearingPhase::Finished,
                ClearingAction::Return(Err(CodexOAuthError::IoError(reason))),
            ),
            (ClearingPhase::DeletingStore, ClearingEvent::StoreDeleted(result)) => (
                ClearingPhase::Finished,
                ClearingAction::Return(result),
            ),
            (other, _) => {
                assert(false);
                (other, ClearingAction::DeleteStore)
            },
        };
        self.phase = next;
        action
    }
}

} // verus!
