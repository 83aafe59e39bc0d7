//! Tokens that another program or the server has renewed.
use crate::account;
use crate::adoption;
use crate::adoption::{RefreshTokenAdoptionMode, RefreshTokenAdoptionOutcome};
use crate::error;
use crate::model;
use crate::text;
use vstd::prelude::*;

verus! {

/// The tokens of an account.
pub open spec fn tokens_of(account: account::AccountModel) -> (
    Seq<char>,
    Option<crate::claims::TokenModel>,
) {
    (account.refresh_token, account.id_token)
}

/// Unless the server has rejected them, the tokens of an account are replaced only
/// by those that carry a strictly later time, and only where the time of the
/// account is known.
pub proof fn only_strictly_newer_tokens_replace_others(
    account: account::AccountModel,
    live: adoption::LiveModel,
    now_ms: i64,
)
    ensures
        ({
            let mode = RefreshTokenAdoptionMode::TimestampChecked;
            tokens_of(adoption::account_after(account, live, mode, now_ms)) != tokens_of(account)
                ==> adoption::dated(account) && adoption::later(account, live)
        }),
{
}

/// Tokens that the server has rejected are replaced by whatever other tokens there
/// are.
pub proof fn rejected_tokens_give_way(
    account: account::AccountModel,
    live: adoption::LiveModel,
    now_ms: i64,
)
    requires
        !adoption::same_tokens(account, live),
    ensures
        ({
            let mode = RefreshTokenAdoptionMode::RejectedManagerToken;
            let after = adoption::account_after(account, live, mode, now_ms);
            &&& adoption::outcome_for(account, live, mode) == RefreshTokenAdoptionOutcome::Adopted
            &&& adoption::same_tokens(after, live)
            &&& account.token_updated_at_ms < i64::MAX ==> after.token_updated_at_ms
                > account.token_updated_at_ms
        }),
{
}

/// Tokens whose age is not certain, and older ones, change nothing; and meeting
/// them again, at whatever time, has the same outcome.
pub proof fn undecided_tokens_change_nothing(
    manager: model::ManagerModel,
    account_id: Seq<char>,
    live: adoption::LiveModel,
    now_ms: i64,
    again_ms: i64,
)
    ensures
        ({
            let mode = RefreshTokenAdoptionMode::TimestampChecked;
            let (after, outcome) = manager.adopting(account_id, live, mode, now_ms);
            outcome == RefreshTokenAdoptionOutcome::Ambiguous || outcome
                == RefreshTokenAdoptionOutcome::ProvablyOlder ==> after == manager
                && after.adopting(account_id, live, mode, again_ms) == (manager, outcome)
        }),
{
    let mode = RefreshTokenAdoptionMode::TimestampChecked;
    let (after, outcome) = manager.adopting(account_id, live, mode, now_ms);
    if manager.has(account_id) && !outcome.changed() {
        unchanged_means_unchanged(manager, account_id, live, mode, now_ms);
        unchanged_means_unchanged(manager, account_id, live, mode, again_ms);
    }
}

/// Where meeting the credentials file is said to have changed nothing, nothing has
/// changed.
pub proof fn unchanged_means_unchanged(
    manager: model::ManagerModel,
    account_id: Seq<char>,
    live: adoption::LiveModel,
    mode: RefreshTokenAdoptionMode,
    now_ms: i64,
)
    ensures
        ({
            let (after, outcome) = manager.adopting(account_id, live, mode, now_ms);
            !outcome.changed() ==> after == manager
        }),
{
    let (after, outcome) = manager.adopting(account_id, live, mode, now_ms);
    if manager.has(account_id) && !outcome.changed() {
        assert(after.accounts =~= manager.accounts);
    }
}

/// After its tokens were taken over, or found to be the same, the credentials file
/// holds nothing new: its tokens are those of the account, and meeting them again
/// changes at most the time of an account that still has none.
pub proof fn meeting_the_same_tokens_again_changes_nothing(
    account: account::AccountModel,
    live: adoption::LiveModel,
    mode: RefreshTokenAdoptionMode,
    again: RefreshTokenAdoptionMode,
    now_ms: i64,
    again_ms: i64,
)
    requires
        adoption::outcome_for(account, live, mode) is Adopted || adoption::outcome_for(
            account,
            live,
            mode,
        ) is Synchronized,
    ensures
        ({
            let after = adoption::account_after(account, live, mode, now_ms);
            &&& adoption::same_tokens(after, live)
            &&& adoption::outcome_for(after, live, again)
                == (RefreshTokenAdoptionOutcome::Synchronized {
                state_changed: !adoption::dated(after),
            })
            &&& adoption::dated(account) ==> adoption::dated(after) && adoption::account_after(
                after,
                live,
                again,
                again_ms,
            ) == after
        }),
{
}

/// An account that meets its own tokens in the credentials file has a time from
/// then on.
pub proof fn the_same_tokens_date_an_account(
    account: account::AccountModel,
    live: adoption::LiveModel,
    mode: RefreshTokenAdoptionMode,
    now_ms: i64,
)
    requires
        adoption::same_tokens(account, live),
        now_ms > 0,
    ensures
        adoption::dated(adoption::account_after(account, live, mode, now_ms)),
{
}

/// The time of the tokens of an account never goes back when it meets the
/// credentials file.
pub proof fn token_times_never_go_back(
    account: account::AccountModel,
    live: adoption::LiveModel,
    mode: RefreshTokenAdoptionMode,
    now_ms: i64,
)
    requires
        now_ms >= 0,
    ensures
        adoption::account_after(account, live, mode, now_ms).token_updated_at_ms
            >= account.token_updated_at_ms,
{
}

/// An access token does not outlive the refresh token that it belongs to; where the
/// refresh token stays, so does the access token.
pub proof fn taking_tokens_over_drops_the_access_token(
    manager: model::ManagerModel,
    account_id: Seq<char>,
    live: adoption::LiveModel,
    mode: RefreshTokenAdoptionMode,
    now_ms: i64,
)
    ensures
        ({
            let (after, outcome) = manager.adopting(account_id, live, mode, now_ms);
            if outcome == RefreshTokenAdoptionOutcome::Adopted {
                after.access_tokens == manager.access_tokens.remove(account_id)
            } else {
                after.access_tokens == manager.access_tokens
            }
        }),
{
}

/// Meeting the credentials file concerns one account alone.
pub proof fn adoption_leaves_the_rest_alone(
    manager: model::ManagerModel,
    account_id: Seq<char>,
    live: adoption::LiveModel,
    mode: RefreshTokenAdoptionMode,
    now_ms: i64,
    other: Seq<char>,
)
    requires
        other != account_id,
    ensures
        ({
            let (after, outcome) = manager.adopting(account_id, live, mode, now_ms);
            &&& model::lookup(after.accounts, other) == model::lookup(manager.accounts, other)
            &&& model::lookup(after.access_tokens, other) == model::lookup(
                manager.access_tokens,
                other,
            )
            &&& after.accounts.dom() == manager.accounts.dom()
            &&& after.default_account_id == manager.default_account_id
            &&& after.pending_device_codes == manager.pending_device_codes
            &&& after.login_epoch == manager.login_epoch
        }),
{
    let (after, outcome) = manager.adopting(account_id, live, mode, now_ms);
    assert(after.accounts.dom() =~= manager.accounts.dom());
}

/// The account stays the same person, whatever tokens it takes over.
pub proof fn adoption_keeps_the_person(
    account: account::AccountModel,
    live: adoption::LiveModel,
    mode: RefreshTokenAdoptionMode,
    now_ms: i64,
)
    ensures
        ({
            let after = adoption::account_after(account, live, mode, now_ms);
            &&& after.account_id == account.account_id
            &&& after.email == account.email
            &&& after.authenticated_at == account.authenticated_at
        }),
{
}

/// After tokens were taken over, the workspace of an account is the one that its ID
/// token names, and stays where the ID token names none.
pub proof fn adopted_tokens_set_the_workspace(
    account: account::AccountModel,
    live: adoption::LiveModel,
    mode: RefreshTokenAdoptionMode,
    now_ms: i64,
)
    requires
        adoption::outcome_for(account, live, mode) is Adopted,
    ensures
        ({
            let after = adoption::account_after(account, live, mode, now_ms);
            match after.claimed_workspace() {
                Some(workspace) => after.chatgpt_account_id == Some(workspace),
                None => after.chatgpt_account_id == account.stored_workspace(),
            }
        }),
{
}

/// A reply to an exchange of a refresh token that the account no longer keeps
/// changes nothing.
pub proof fn a_stale_reply_changes_nothing(
    manager: model::ManagerModel,
    account_id: Seq<char>,
    used: Seq<char>,
    tokens: account::TokensModel,
    now_ms: i64,
)
    requires
        !manager.has(account_id) || manager.accounts[account_id].refresh_token != used,
    ensures
        manager.renewing(account_id, used, tokens, now_ms).0 == manager,
        manager.renewing(account_id, used, tokens, now_ms).1 is Err,
{
}

/// A refresh concerns one account alone, and what the reply leaves out or leaves
/// blank stays as it was.
pub proof fn a_refresh_keeps_what_the_reply_leaves_out(
    manager: model::ManagerModel,
    account_id: Seq<char>,
    tokens: account::TokensModel,
    now_ms: i64,
    other: Seq<char>,
)
    requires
        manager.has(account_id),
        other != account_id,
    ensures
        ({
            let before = manager.accounts[account_id];
            let (after, outcome) = manager.renewing(
                account_id,
                before.refresh_token,
                tokens,
                now_ms,
            );
            let account = after.accounts[account_id];
            &&& outcome is Ok
            &&& after.accounts.dom() == manager.accounts.dom()
            &&& model::lookup(after.accounts, other) == model::lookup(manager.accounts, other)
            &&& after.access_tokens == manager.access_tokens
            &&& after.default_account_id == manager.default_account_id
            &&& text::not_blank(tokens.refresh_token) is None ==> account.refresh_token
                == before.refresh_token
            &&& adoption::usable_token(tokens.id_token) is None ==> account.id_token
                == before.id_token
            &&& account.account_id == before.account_id
            &&& account.email == before.email
            &&& account.token_updated_at_ms == now_ms
        }),
{
    let before = manager.accounts[account_id];
    let after = manager.renewing(account_id, before.refresh_token, tokens, now_ms).0;
    assert(after.accounts.dom() =~= manager.accounts.dom());
}

/// Where a refresh is said to need no saving, nothing has changed.
pub proof fn a_refresh_without_saving_changes_nothing(
    manager: model::ManagerModel,
    account_id: Seq<char>,
    used: Seq<char>,
    tokens: account::TokensModel,
    now_ms: i64,
)
    ensures
        ({
            let (after, outcome) = manager.renewing(account_id, used, tokens, now_ms);
            outcome is Ok && !outcome->Ok_0.needs_save ==> after == manager
        }),
{
    let (after, outcome) = manager.renewing(account_id, used, tokens, now_ms);
    if outcome is Ok && !outcome->Ok_0.needs_save {
        assert(after.accounts =~= manager.accounts);
    }
}

/// Whether the credentials file holds other tokens than the account: another refresh
/// token, or an ID token, not blank, with another text.
pub open spec fn differ(account: account::AccountModel, live: adoption::LiveModel) -> bool {
    ||| live.refresh_token != account.refresh_token
    ||| brings_id_token(account.id_token, live.id_token)
}

/// Whether `brought` is an ID token, not blank, with another text than the one that is
/// kept.
pub open spec fn brings_id_token(
    kept: Option<crate::claims::TokenModel>,
    brought: Option<crate::claims::TokenModel>,
) -> bool {
    match (kept, brought) {
        (_, None) => false,
        (Some(old), Some(new)) => !text::blank(new.text) && new.text != old.text,
        (None, Some(new)) => !text::blank(new.text),
    }
}

/// The workspace that an ID token names.
pub open spec fn workspace_named_by(token: Option<crate::claims::TokenModel>) -> Option<Seq<char>> {
    match token {
        Some(token) => match token.claims {
            Some(claims) => claims.workspace(),
            None => None,
        },
        None => None,
    }
}

/// The stored workspace is used where there is one that is not blank, and the one
/// that the ID token names otherwise. After the tokens have changed it is the other
/// way round.
pub proof fn new_tokens_name_the_workspace_first(account: account::AccountModel)
    ensures
        ({
            let stored = text::trimmed_non_empty(account.chatgpt_account_id);
            let named = workspace_named_by(account.id_token);
            &&& account.stored_workspace() == stored
            &&& account.claimed_workspace() == named
            &&& stored is Some ==> account.effective_workspace() == stored
            &&& stored is None ==> account.effective_workspace() == named
            &&& named is Some ==> account.synced_workspace() == named
            &&& named is None ==> account.synced_workspace() == stored
        }),
{
}

/// Tokens in the credentials file that differ from those of an account and carry a
/// strictly later time are taken over, whatever is known of those of the account:
/// also where the ID token alone is new. The account keeps the tokens and the time of
/// the file then.
pub proof fn newer_tokens_are_taken_over(
    account: account::AccountModel,
    live: adoption::LiveModel,
    mode: RefreshTokenAdoptionMode,
    now_ms: i64,
)
    requires
        account.token_updated_at_ms > 0,
        live.last_refresh_ms is Some,
        live.last_refresh_ms->0 > account.token_updated_at_ms,
        differ(account, live),
    ensures
        ({
            let after = adoption::account_after(account, live, mode, now_ms);
            &&& adoption::outcome_for(account, live, mode) == RefreshTokenAdoptionOutcome::Adopted
            &&& after.refresh_token == live.refresh_token
            &&& brings_id_token(account.id_token, live.id_token) ==> after.id_token
                == live.id_token
            &&& !brings_id_token(account.id_token, live.id_token) ==> after.id_token
                == account.id_token
            &&& after.token_updated_at_ms == live.last_refresh_ms->0
        }),
{
}

/// Other tokens that carry no time, or the same time, or that meet an account without
/// a time, decide nothing; those that carry an earlier time than the account are
/// older. In neither case the account changes.
pub proof fn other_tokens_that_are_not_newer_are_left_alone(
    account: account::AccountModel,
    live: adoption::LiveModel,
    now_ms: i64,
)
    requires
        differ(account, live),
        account.token_updated_at_ms <= 0 || live.last_refresh_ms is None
            || live.last_refresh_ms->0 <= account.token_updated_at_ms,
    ensures
        ({
            let mode = RefreshTokenAdoptionMode::TimestampChecked;
            let older = account.token_updated_at_ms > 0 && live.last_refresh_ms is Some
                && live.last_refresh_ms->0 < account.token_updated_at_ms;
            &&& older ==> adoption::outcome_for(account, live, mode)
                == RefreshTokenAdoptionOutcome::ProvablyOlder
            &&& !older ==> adoption::outcome_for(account, live, mode)
                == RefreshTokenAdoptionOutcome::Ambiguous
            &&& adoption::account_after(account, live, mode, now_ms) == account
        }),
{
}

/// Tokens that the server has rejected are replaced by other ones whatever their time:
/// with the time that those carry, where it is later, and otherwise with the present,
/// or with the next millisecond where the account is ahead of that.
pub proof fn rejected_tokens_are_replaced_whatever_the_time(
    account: account::AccountModel,
    live: adoption::LiveModel,
    now_ms: i64,
)
    requires
        differ(account, live),
    ensures
        ({
            let mode = RefreshTokenAdoptionMode::RejectedManagerToken;
            let after = adoption::account_after(account, live, mode, now_ms);
            let known = account.token_updated_at_ms;
            let later = live.last_refresh_ms is Some && live.last_refresh_ms->0 > known;
            &&& adoption::outcome_for(account, live, mode) == RefreshTokenAdoptionOutcome::Adopted
            &&& after.refresh_token == live.refresh_token
            &&& brings_id_token(account.id_token, live.id_token) ==> after.id_token
                == live.id_token
            &&& !brings_id_token(account.id_token, live.id_token) ==> after.id_token
                == account.id_token
            &&& later ==> after.token_updated_at_ms == live.last_refresh_ms->0
            &&& !later && known < now_ms ==> after.token_updated_at_ms == now_ms
            &&& !later && known >= now_ms && known < i64::MAX ==> after.token_updated_at_ms
                == known + 1
            &&& !later && known == i64::MAX ==> after.token_updated_at_ms == known
        }),
{
}

/// An account that meets its own tokens keeps everything but their time: that moves on
/// to a later one in the file, and an account without a time gets that of the file, or
/// the present where the file has none. The outcome says whether the time was set.
pub proof fn the_same_tokens_move_the_time_alone(
    account: account::AccountModel,
    live: adoption::LiveModel,
    mode: RefreshTokenAdoptionMode,
    now_ms: i64,
)
    requires
        !differ(account, live),
    ensures
        ({
            let after = adoption::account_after(account, live, mode, now_ms);
            let known = account.token_updated_at_ms;
            let later = live.last_refresh_ms is Some && live.last_refresh_ms->0 > known;
            &&& adoption::outcome_for(account, live, mode)
                == (RefreshTokenAdoptionOutcome::Synchronized {
                state_changed: known <= 0 || later,
            })
            &&& after == account::AccountModel {
                token_updated_at_ms: after.token_updated_at_ms,
                ..account
            }
            &&& known > 0 && later ==> after.token_updated_at_ms == live.last_refresh_ms->0
            &&& known > 0 && !later ==> after.token_updated_at_ms == known
            &&& known <= 0 && live.last_refresh_ms is Some && live.last_refresh_ms->0 > 0
                ==> after.token_updated_at_ms == live.last_refresh_ms->0
            &&& known <= 0 && !(live.last_refresh_ms is Some && live.last_refresh_ms->0 > 0)
                ==> after.token_updated_at_ms == now_ms
        }),
{
}

/// After tokens were taken over, the workspace is the one that the ID token of the
/// account names then, and the trimmed stored one where it names none; the rest of
/// the account is as it was.
pub proof fn tokens_that_were_taken_over_name_the_workspace(
    account: account::AccountModel,
    live: adoption::LiveModel,
    mode: RefreshTokenAdoptionMode,
    now_ms: i64,
)
    requires
        adoption::outcome_for(account, live, mode) == RefreshTokenAdoptionOutcome::Adopted,
    ensures
        ({
            let after = adoption::account_after(account, live, mode, now_ms);
            let named = workspace_named_by(after.id_token);
            &&& named is Some ==> after.chatgpt_account_id == named
            &&& named is None ==> after.chatgpt_account_id == text::trimmed_non_empty(
                account.chatgpt_account_id,
            )
            &&& after.account_id == account.account_id
            &&& after.email == account.email
            &&& after.authenticated_at == account.authenticated_at
        }),
{
}

/// An outcome asks for saving exactly where tokens were taken over or a time was set.
pub proof fn what_was_taken_over_is_saved(outcome: RefreshTokenAdoptionOutcome)
    ensures
        outcome.changed() <==> outcome == RefreshTokenAdoptionOutcome::Adopted || outcome == (
        RefreshTokenAdoptionOutcome::Synchronized { state_changed: true }),
{
}

/// In the center, what becomes of an account that meets the credentials file is what
/// becomes of it alone, and an account that is not there is not managed.
pub proof fn the_center_takes_tokens_over_as_the_account_does(
    manager: model::ManagerModel,
    account_id: Seq<char>,
    live: adoption::LiveModel,
    mode: RefreshTokenAdoptionMode,
    now_ms: i64,
)
    ensures
        ({
            let (after, outcome) = manager.adopting(account_id, live, mode, now_ms);
            let account = manager.accounts[account_id];
            &&& manager.accounts.dom().contains(account_id) ==> outcome == adoption::outcome_for(
                account,
                live,
                mode,
            ) && after.accounts == manager.accounts.insert(
                account_id,
                adoption::account_after(account, live, mode, now_ms),
            )
            &&& !manager.accounts.dom().contains(account_id) ==> after == manager && outcome
                == RefreshTokenAdoptionOutcome::NotManaged
            &&& after.default_account_id == manager.default_account_id
            &&& after.pending_device_codes == manager.pending_device_codes
            &&& after.login_epoch == manager.login_epoch
        }),
{
}

/// A refresh token that the file writes with white space around it is met without it,
/// and a blank one is not met at all.
pub proof fn a_written_refresh_token_is_met_trimmed(
    manager: model::ManagerModel,
    account_id: Seq<char>,
    live: adoption::LiveModel,
    now_ms: i64,
)
    ensures
        ({
            let (after, changed) = manager.adopting_written(account_id, live, now_ms);
            let (met, outcome) = manager.adopting(
                account_id,
                adoption::LiveModel {
                    refresh_token: text::trimmed(live.refresh_token),
                    id_token: live.id_token,
                    last_refresh_ms: live.last_refresh_ms,
                },
                RefreshTokenAdoptionMode::TimestampChecked,
                now_ms,
            );
            &&& text::blank(live.refresh_token) ==> after == manager && !changed
            &&& !text::blank(live.refresh_token) ==> after == met && (changed
                <==> outcome.changed())
        }),
{
}

/// A refresh that is stored leaves in the account the refresh token and the ID token
/// of the reply, where they are there and not blank, the time of the refresh, and the
/// workspace that the ID token names then, or else the trimmed stored one. The result
/// carries the same, and asks for saving exactly where the account has changed.
pub proof fn a_refresh_stores_what_the_reply_brings(
    manager: model::ManagerModel,
    account_id: Seq<char>,
    used: Seq<char>,
    tokens: account::TokensModel,
    obtained_at_ms: i64,
)
    requires
        manager.accounts.dom().contains(account_id),
        manager.accounts[account_id].refresh_token == used,
    ensures
        ({
            let before = manager.accounts[account_id];
            let (after, outcome) = manager.renewing(account_id, used, tokens, obtained_at_ms);
            let account = after.accounts[account_id];
            let renewal = outcome->Ok_0;
            let named = workspace_named_by(account.id_token);
            let brings_refresh = tokens.refresh_token is Some && !text::blank(
                tokens.refresh_token->0,
            );
            &&& outcome is Ok
            &&& after.accounts == manager.accounts.insert(account_id, account)
            &&& after == model::ManagerModel { accounts: after.accounts, ..manager }
            &&& brings_refresh ==> account.refresh_token == tokens.refresh_token->0
            &&& !brings_refresh ==> account.refresh_token == before.refresh_token
            &&& brings_id_token(before.id_token, tokens.id_token) ==> account.id_token
                == tokens.id_token
            &&& !brings_id_token(before.id_token, tokens.id_token) ==> account.id_token
                == before.id_token
            &&& account.token_updated_at_ms == obtained_at_ms
            &&& named is Some ==> account.chatgpt_account_id == named
            &&& named is None ==> account.chatgpt_account_id == text::trimmed_non_empty(
                before.chatgpt_account_id,
            )
            &&& account.account_id == before.account_id
            &&& account.email == before.email
            &&& account.authenticated_at == before.authenticated_at
            &&& renewal.refresh_token == account.refresh_token
            &&& renewal.id_token == account.id_token
            &&& renewal.chatgpt_account_id == account.chatgpt_account_id
            &&& renewal.needs_save <==> account != before
        }),
{
}

/// A refresh is refused where the account is not there, and where it keeps another
/// refresh token than the one that was exchanged; nothing changes then.
pub proof fn a_refresh_is_refused_where_the_token_was_replaced(
    manager: model::ManagerModel,
    account_id: Seq<char>,
    used: Seq<char>,
    tokens: account::TokensModel,
    obtained_at_ms: i64,
)
    ensures
        ({
            let (after, outcome) = manager.renewing(account_id, used, tokens, obtained_at_ms);
            &&& !manager.accounts.dom().contains(account_id) ==> after == manager && outcome
                == Err::<model::RenewalModel, _>(error::ErrorModel::AccountNotFound(account_id))
            &&& manager.accounts.dom().contains(account_id)
                && manager.accounts[account_id].refresh_token != used ==> after == manager
                && outcome == Err::<model::RenewalModel, _>(
                error::ErrorModel::TokenFetchFailed("账号凭据已更新，已丢弃旧刷新响应"@),
            )
        }),
{
}

} // verus!
