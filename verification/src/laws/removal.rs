//! The removal of accounts.
use crate::account;
use crate::error;
use crate::laws::accounts;
use crate::model;
use crate::removal;
use vstd::prelude::*;

verus! {

/// Whether `event` is an outcome of `action` in the removal of an account.
pub open spec fn removal_answers(
    action: removal::RemovalActionModel,
    event: removal::RemovalEventModel,
) -> bool {
    match action {
        removal::RemovalActionModel::ClearLive(_) => event is Cleared,
        removal::RemovalActionModel::Save => event is Saved,
        removal::RemovalActionModel::Return(_) => false,
    }
}

/// Whether `event` is an outcome of `action` in the clearing of everything.
pub open spec fn clearing_answers(
    action: removal::ClearingActionModel,
    event: removal::ClearingEventModel,
) -> bool {
    match action {
        removal::ClearingActionModel::ClearLive(_) => event is Cleared,
        removal::ClearingActionModel::DeleteStore => event is StoreDeleted,
        removal::ClearingActionModel::Return(_) => false,
    }
}

/// How many steps a removal can still take at most.
pub open spec fn removal_steps_left(phase: removal::RemovalPhase) -> nat {
    match phase {
        removal::RemovalPhase::ClearingLive => 2,
        removal::RemovalPhase::Saving => 1,
        removal::RemovalPhase::Finished => 0,
    }
}

/// How many steps a clearing can still take at most.
pub open spec fn clearing_steps_left(phase: removal::ClearingPhaseModel) -> nat {
    match phase {
        removal::ClearingPhaseModel::ClearingLive { rest, .. } => rest.len() + 2,
        removal::ClearingPhaseModel::DeletingStore => 1,
        removal::ClearingPhaseModel::Finished => 0,
    }
}

/// Where the credentials of an account cannot be removed from the file, neither the
/// account nor anything else is removed, and the failure is what is returned.
pub proof fn a_failure_to_clear_the_file_changes_nothing(
    removal_phase: removal::RemovalPhase,
    clearing_phase: removal::ClearingPhaseModel,
    account_id: Seq<char>,
    manager: model::ManagerModel,
    reason: Seq<char>,
)
    ensures
        ({
            let one = removal::RemovalEventModel::Cleared(Err(reason));
            let all = removal::ClearingEventModel::Cleared(Err(reason));
            let failure = error::ErrorModel::IoError(reason);
            &&& removal::removal_expected(removal_phase, one) ==> removal::next_removal_step(
                removal_phase,
                account_id,
                manager,
                one,
            ) == (
                removal::RemovalPhase::Finished,
                manager,
                removal::RemovalActionModel::Return(Err(failure)),
            )
            &&& removal::clearing_expected(clearing_phase, all) ==> removal::next_clearing_step(
                clearing_phase,
                manager,
                all,
            ) == (
                removal::ClearingPhaseModel::Finished,
                manager,
                removal::ClearingActionModel::Return(Err(failure)),
            )
        }),
{
}

/// A removal begins with an account that is there, and changes nothing by beginning.
pub proof fn only_an_account_that_is_there_is_removed(
    account_id: Seq<char>,
    manager: model::ManagerModel,
)
    ensures
        ({
            let (phase, after, action) = removal::first_removal_step(account_id, manager);
            &&& after == manager
            &&& phase is Finished <==> action is Return
            &&& action is Return <==> !manager.has(account_id)
            &&& forall|answer: removal::RemovalEventModel| #[trigger]
                removal::removal_expected(phase, answer) <==> removal_answers(action, answer)
        }),
{
}

/// A removal can take in whatever comes of the action that it asks for, and every
/// step brings it nearer to its end, where it returns.
pub proof fn a_removal_comes_to_its_end(
    phase: removal::RemovalPhase,
    account_id: Seq<char>,
    manager: model::ManagerModel,
    event: removal::RemovalEventModel,
)
    requires
        removal::removal_expected(phase, event),
    ensures
        ({
            let (next, after, action) = removal::next_removal_step(
                phase,
                account_id,
                manager,
                event,
            );
            &&& removal_steps_left(next) < removal_steps_left(phase)
            &&& next is Finished <==> action is Return
            &&& forall|answer: removal::RemovalEventModel| #[trigger]
                removal::removal_expected(next, answer) <==> removal_answers(action, answer)
        }),
{
}

/// A clearing can take in whatever comes of the first action that it asks for.
pub proof fn a_clearing_can_take_its_first_event_in(
    ids: Seq<Seq<char>>,
    manager: model::ManagerModel,
)
    ensures
        ({
            let (phase, after, action) = removal::going_on(ids, manager);
            &&& !(phase is Finished) && !(action is Return)
            &&& forall|answer: removal::ClearingEventModel| #[trigger]
                removal::clearing_expected(phase, answer) <==> clearing_answers(action, answer)
        }),
{
}

/// A clearing can take in whatever comes of the action that it asks for, and every
/// step brings it nearer to its end, where it returns.
pub proof fn a_clearing_comes_to_its_end(
    phase: removal::ClearingPhaseModel,
    manager: model::ManagerModel,
    event: removal::ClearingEventModel,
)
    requires
        removal::clearing_expected(phase, event),
    ensures
        ({
            let (next, after, action) = removal::next_clearing_step(phase, manager, event);
            &&& clearing_steps_left(next) < clearing_steps_left(phase)
            &&& next is Finished <==> action is Return
            &&& forall|answer: removal::ClearingEventModel| #[trigger]
                removal::clearing_expected(next, answer) <==> clearing_answers(action, answer)
        }),
{
}

/// Nothing is cleared before the last account has left the credentials file, and
/// everything is cleared then. Every account in `rest` has its turn, in that order.
pub proof fn everything_is_cleared_after_the_last_account_left_the_file(
    current: Seq<char>,
    rest: Seq<Seq<char>>,
    manager: model::ManagerModel,
)
    ensures
        ({
            let (next, after, action) = removal::next_clearing_step(
                removal::ClearingPhaseModel::ClearingLive { current, rest },
                manager,
                removal::ClearingEventModel::Cleared(Ok(())),
            );
            if rest.len() > 0 {
                &&& after == manager
                &&& next == (removal::ClearingPhaseModel::ClearingLive {
                    current: rest[0],
                    rest: rest.skip(1),
                })
                &&& action == removal::ClearingActionModel::ClearLive(rest[0])
            } else {
                &&& after == manager.cleared()
                &&& after.accounts == Map::<Seq<char>, account::AccountModel>::empty()
                &&& action is DeleteStore
            }
        }),
{
}

/// An account that was removed is gone before the accounts are saved, with its access
/// token, and is not the default; every other account is as it was.
pub proof fn a_removed_account_is_gone(
    account_id: Seq<char>,
    manager: model::ManagerModel,
    other: Seq<char>,
)
    requires
        manager.accounts.dom().finite(),
        manager.has(account_id),
        other != account_id,
    ensures
        ({
            let (next, after, action) = removal::next_removal_step(
                removal::RemovalPhase::ClearingLive,
                account_id,
                manager,
                removal::RemovalEventModel::Cleared(Ok(())),
            );
            &&& action is Save
            &&& after == manager.removing(account_id).0
            &&& !after.has(account_id)
            &&& model::lookup(after.access_tokens, account_id) is None
            &&& after.default_account() != Some(account_id)
            &&& model::lookup(after.accounts, other) == model::lookup(manager.accounts, other)
            &&& model::lookup(after.access_tokens, other) == model::lookup(
                manager.access_tokens,
                other,
            )
        }),
{
    accounts::removing_an_account_removes_that_account_alone(manager, account_id, other);
}

/// Removing and clearing keep the authentication center sound.
pub proof fn removing_stays_sound(
    removal_phase: removal::RemovalPhase,
    clearing_phase: removal::ClearingPhaseModel,
    account_id: Seq<char>,
    manager: model::ManagerModel,
    removal_event: removal::RemovalEventModel,
    clearing_event: removal::ClearingEventModel,
)
    requires
        accounts::sound(manager),
    ensures
        accounts::sound(
            removal::next_removal_step(removal_phase, account_id, manager, removal_event).1,
        ),
        accounts::sound(removal::next_clearing_step(clearing_phase, manager, clearing_event).1),
{
    accounts::account_management_stays_sound(manager, account_id);
}

/// A clearing that begins goes through every account that is there, each of them once,
/// and through nothing else.
pub proof fn a_clearing_goes_through_every_account(
    ids: Seq<Seq<char>>,
    manager: model::ManagerModel,
    id: Seq<char>,
    i: int,
    j: int,
)
    requires
        removal::lists_accounts(ids, manager),
    ensures
        manager.accounts.dom().contains(id) <==> ids.contains(id),
        0 <= i < j < ids.len() ==> ids[i] != ids[j],
        ids.len() > 0 ==> removal::going_on(ids, manager) == (
            (removal::ClearingPhaseModel::ClearingLive { current: ids[0], rest: ids.skip(1) }),
            manager,
            removal::ClearingActionModel::ClearLive(ids[0]),
        ),
        ids.len() == 0 ==> removal::going_on(ids, manager) == (
            removal::ClearingPhaseModel::DeletingStore,
            manager.cleared(),
            removal::ClearingActionModel::DeleteStore,
        ),
{
    assert(ids.to_set().contains(id) <==> ids.contains(id));
}

/// What comes of saving or of deleting the store at the end is what is returned, and
/// changes nothing any more.
pub proof fn the_last_outcome_is_returned(
    account_id: Seq<char>,
    manager: model::ManagerModel,
    outcome: Result<(), error::ErrorModel>,
)
    ensures
        removal::next_removal_step(
            removal::RemovalPhase::Saving,
            account_id,
            manager,
            removal::RemovalEventModel::Saved(outcome),
        ) == (
            removal::RemovalPhase::Finished,
            manager,
            removal::RemovalActionModel::Return(outcome),
        ),
        removal::next_clearing_step(
            removal::ClearingPhaseModel::DeletingStore,
            manager,
            removal::ClearingEventModel::StoreDeleted(outcome),
        ) == (
            removal::ClearingPhaseModel::Finished,
            manager,
            removal::ClearingActionModel::Return(outcome),
        ),
        removal::first_removal_step(account_id, manager).2 == if manager.accounts.dom().contains(
            account_id,
        ) {
            removal::RemovalActionModel::ClearLive(account_id)
        } else {
            removal::RemovalActionModel::Return(
                Err(error::ErrorModel::AccountNotFound(account_id)),
            )
        },
{
}

} // verus!
