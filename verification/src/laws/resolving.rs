//! The way of a resolution from the first look at the file to the token.
use crate::account;
use crate::adoption;
use crate::adoption::RefreshTokenAdoptionMode;
use crate::clock;
use crate::error;
use crate::identity;
use crate::laws::accounts;
use crate::laws::sync;
use crate::model;
use crate::resolution;
use crate::resolution::StepTimes;
use crate::text;
use vstd::prelude::*;

verus! {

/// The life of an access token in milliseconds: the one that is given, or else an
/// hour.
pub open spec fn life_ms(expires_in: Option<i64>) -> int {
    if expires_in is Some {
        expires_in->0 * 1000
    } else {
        3_600_000
    }
}

/// What a resolution does after the exchange of `used` has brought `tokens`, until the
/// credentials file is to be written; where the accounts are to be saved first, that
/// succeeds.
pub open spec fn until_the_file_is_written(
    account_id: Seq<char>,
    manager: model::ManagerModel,
    used: Seq<char>,
    retried: bool,
    tokens: account::TokensModel,
    times: StepTimes,
    saved: StepTimes,
) -> resolution::Step {
    let stored = resolution::next_step(
        resolution::PhaseModel::Refreshing { refresh_token: used, retried },
        account_id,
        manager,
        resolution::EventModel::Refreshed(Ok(tokens)),
        times,
    );
    if stored.2 is Save {
        resolution::next_step(
            stored.0,
            account_id,
            stored.1,
            resolution::EventModel::Saved(Ok(())),
            saved,
        )
    } else {
        stored
    }
}

/// The time from which the life of the access token counts: that of the last step
/// before the credentials file is written.
pub open spec fn life_begins(
    account_id: Seq<char>,
    manager: model::ManagerModel,
    used: Seq<char>,
    tokens: account::TokensModel,
    times: StepTimes,
    saved: StepTimes,
) -> i64 {
    if manager.renewing(account_id, used, tokens, times.now_ms).0.accounts[account_id]
        != manager.accounts[account_id] {
        saved.later_ms
    } else {
        times.later_ms
    }
}

/// An exchange that succeeds, the first or the second one, ends with its access token:
/// where the account still keeps the refresh token that was exchanged and every saving
/// and writing succeeds, the account keeps what the reply brings, the credentials file
/// gets the tokens of the account, and the access token of the reply is kept and
/// returned, with the time of the exchange and the expiry that follows from its life.
pub proof fn an_exchange_that_succeeds_ends_with_its_token(
    account_id: Seq<char>,
    manager: model::ManagerModel,
    used: Seq<char>,
    retried: bool,
    tokens: account::TokensModel,
    times: StepTimes,
    saved: StepTimes,
    synced: StepTimes,
)
    requires
        manager.accounts.dom().contains(account_id),
        manager.accounts[account_id].refresh_token == used,
        clock::fits_i64(
            life_begins(account_id, manager, used, tokens, times, saved) + life_ms(
                tokens.expires_in,
            ),
        ),
    ensures
        ({
            let begun = life_begins(account_id, manager, used, tokens, times, saved);
            let written = until_the_file_is_written(
                account_id,
                manager,
                used,
                retried,
                tokens,
                times,
                saved,
            );
            let ended = resolution::next_step(
                written.0,
                account_id,
                written.1,
                resolution::EventModel::Synced,
                synced,
            );
            let renewed = manager.renewing(account_id, used, tokens, times.now_ms).0;
            let account = renewed.accounts[account_id];
            let update = written.2->SyncLiveAuth_0;
            let result = ended.2->Return_0;
            let brings_refresh = tokens.refresh_token is Some && !text::blank(
                tokens.refresh_token->0,
            );
            &&& written.2 is SyncLiveAuth
            &&& written.1 == renewed
            &&& update.account_id == account_id
            &&& update.previous_refresh_token == used
            &&& update.access_token == tokens.access_token.text
            &&& update.refresh_token == account.refresh_token
            &&& account.id_token is Some ==> update.id_token == Some(account.id_token->0.text)
            &&& account.id_token is None ==> update.id_token is None
            &&& update.tokens_account_id == identity::native_account(
                account.chatgpt_account_id,
                account_id,
            )
            &&& update.last_refresh == clock::time_text(times.now_ms, begun)
            &&& ended.2 is Return
            &&& result is Ok
            &&& result->Ok_0.token == tokens.access_token.text
            &&& result->Ok_0.obtained_at_ms == times.now_ms
            &&& result->Ok_0.expires_at_ms == begun + life_ms(tokens.expires_in)
            &&& ended.1.accounts == renewed.accounts
            &&& ended.1.access_tokens == manager.access_tokens.insert(account_id, result->Ok_0)
            &&& ended.1.default_account_id == manager.default_account_id
            &&& ended.1.pending_device_codes == manager.pending_device_codes
            &&& ended.1.login_epoch == manager.login_epoch
            &&& brings_refresh ==> ended.1.accounts[account_id].refresh_token
                == tokens.refresh_token->0
            &&& !brings_refresh ==> ended.1.accounts[account_id].refresh_token == used
        }),
{
    sync::a_refresh_stores_what_the_reply_brings(
        manager,
        account_id,
        used,
        tokens,
        times.now_ms,
    );
    assert(manager.has(account_id));
}

/// After an exchange that succeeds the accounts are saved exactly where the account
/// has changed.
pub proof fn an_exchange_is_saved_where_it_changed_the_account(
    account_id: Seq<char>,
    manager: model::ManagerModel,
    used: Seq<char>,
    retried: bool,
    tokens: account::TokensModel,
    times: StepTimes,
)
    requires
        manager.accounts.dom().contains(account_id),
        manager.accounts[account_id].refresh_token == used,
    ensures
        ({
            let stored = resolution::next_step(
                resolution::PhaseModel::Refreshing { refresh_token: used, retried },
                account_id,
                manager,
                resolution::EventModel::Refreshed(Ok(tokens)),
                times,
            );
            &&& stored.2 is Save <==> stored.1.accounts[account_id]
                != manager.accounts[account_id]
            &&& stored.2 is Save || stored.2 is SyncLiveAuth
            &&& stored.1 == manager.renewing(account_id, used, tokens, times.now_ms).0
        }),
{
    sync::a_refresh_stores_what_the_reply_brings(
        manager,
        account_id,
        used,
        tokens,
        times.now_ms,
    );
}

/// The reply to an exchange of a refresh token that the account no longer keeps, or of
/// an account that is gone, is refused, whichever exchange it was; nothing changes.
pub proof fn an_exchange_of_a_replaced_token_is_refused(
    account_id: Seq<char>,
    manager: model::ManagerModel,
    used: Seq<char>,
    retried: bool,
    tokens: account::TokensModel,
    times: StepTimes,
)
    requires
        !manager.accounts.dom().contains(account_id) || manager.accounts[account_id].refresh_token
            != used,
    ensures
        ({
            let (next, after, action) = resolution::next_step(
                resolution::PhaseModel::Refreshing { refresh_token: used, retried },
                account_id,
                manager,
                resolution::EventModel::Refreshed(Ok(tokens)),
                times,
            );
            &&& after == manager
            &&& manager.accounts.dom().contains(account_id) ==> action
                == resolution::ActionModel::Return(
                Err(error::ErrorModel::TokenFetchFailed("账号凭据已更新，已丢弃旧刷新响应"@)),
            )
            &&& !manager.accounts.dom().contains(account_id) ==> action
                == resolution::ActionModel::Return(
                Err(error::ErrorModel::AccountNotFound(account_id)),
            )
        }),
{
}

/// An exchange that fails ends the resolution with that failure, but for the first
/// refresh token that the server no longer accepts: then the file is read again. In
/// neither case anything changes.
pub proof fn an_exchange_that_fails_is_returned(
    account_id: Seq<char>,
    manager: model::ManagerModel,
    used: Seq<char>,
    retried: bool,
    failure: error::ErrorModel,
    times: StepTimes,
)
    ensures
        ({
            let (next, after, action) = resolution::next_step(
                resolution::PhaseModel::Refreshing { refresh_token: used, retried },
                account_id,
                manager,
                resolution::EventModel::Refreshed(Err(failure)),
                times,
            );
            &&& after == manager
            &&& retried || failure != error::ErrorModel::RefreshTokenInvalid ==> action
                == resolution::ActionModel::Return(Err(failure))
            &&& !retried && failure == error::ErrorModel::RefreshTokenInvalid ==> action
                == resolution::ActionModel::ReadLiveAuth && next
                == (resolution::PhaseModel::ReadingLiveAgain { rejected: used })
        }),
{
}

/// Whether `step` uses the access token that the center keeps for the account, where a
/// minute is left of it, and exchanges the refresh token of the account for the first
/// time otherwise; or says that the account is not there.
pub open spec fn uses_or_exchanges(
    step: resolution::Step,
    account_id: Seq<char>,
    manager: model::ManagerModel,
    now_ms: i64,
) -> bool {
    let there = manager.accounts.dom().contains(account_id);
    let usable = manager.access_tokens.dom().contains(account_id)
        && manager.access_tokens[account_id].expires_at_ms - now_ms >= 60_000;
    let refresh_token = manager.accounts[account_id].refresh_token;
    &&& step.1 == manager
    &&& there && usable ==> step.2 == resolution::ActionModel::Return(
        Ok(manager.access_tokens[account_id]),
    )
    &&& there && !usable ==> step.2 == resolution::ActionModel::Refresh(refresh_token) && step.0
        == (resolution::PhaseModel::Refreshing { refresh_token, retried: false })
    &&& !there ==> step.2 == resolution::ActionModel::Return(
        Err(error::ErrorModel::AccountNotFound(account_id)),
    )
}

/// A resolution meets the credentials file first. Where that changes the account, the
/// accounts are saved before anything else; then, or at once, the kept access token is
/// used or the refresh token is exchanged.
pub proof fn a_resolution_begins_with_the_file(
    account_id: Seq<char>,
    manager: model::ManagerModel,
    live: adoption::LiveModel,
    times: StepTimes,
    saved: StepTimes,
)
    ensures
        ({
            let first = resolution::next_step(
                resolution::PhaseModel::ReadingLive,
                account_id,
                manager,
                resolution::EventModel::LiveAuth(Some(live)),
                times,
            );
            let without = resolution::next_step(
                resolution::PhaseModel::ReadingLive,
                account_id,
                manager,
                resolution::EventModel::LiveAuth(None),
                times,
            );
            let second = resolution::next_step(
                first.0,
                account_id,
                first.1,
                resolution::EventModel::Saved(Ok(())),
                saved,
            );
            let (met, outcome) = manager.adopting(
                account_id,
                live,
                RefreshTokenAdoptionMode::TimestampChecked,
                times.now_ms,
            );
            &&& first.1 == met
            &&& outcome.changed() ==> first.2 == resolution::ActionModel::Save && uses_or_exchanges(
                second,
                account_id,
                met,
                saved.now_ms,
            )
            &&& !outcome.changed() ==> uses_or_exchanges(first, account_id, met, times.now_ms)
            &&& uses_or_exchanges(without, account_id, manager, times.now_ms)
        }),
{
    let met = manager.adopting(
        account_id,
        live,
        RefreshTokenAdoptionMode::TimestampChecked,
        times.now_ms,
    ).0;
    accounts::a_kept_token_is_used_until_its_last_minute(manager, account_id, times.now_ms);
    accounts::a_kept_token_is_used_until_its_last_minute(met, account_id, times.now_ms);
    accounts::a_kept_token_is_used_until_its_last_minute(met, account_id, saved.now_ms);
}

/// After the server has rejected a refresh token, other tokens of the account in the
/// credentials file are taken over whatever their time, saved, and exchanged; where
/// the file holds none, or the rejected one, the rejection is returned and nothing
/// changes.
pub proof fn a_rejected_token_is_recovered_from_the_file(
    account_id: Seq<char>,
    manager: model::ManagerModel,
    rejected: Seq<char>,
    live: adoption::LiveModel,
    times: StepTimes,
    saved: StepTimes,
)
    requires
        manager.accounts.dom().contains(account_id),
    ensures
        ({
            let phase = resolution::PhaseModel::ReadingLiveAgain { rejected };
            let first = resolution::next_step(
                phase,
                account_id,
                manager,
                resolution::EventModel::LiveAuth(Some(live)),
                times,
            );
            let second = resolution::next_step(
                first.0,
                account_id,
                first.1,
                resolution::EventModel::Saved(Ok(())),
                saved,
            );
            let without = resolution::next_step(
                phase,
                account_id,
                manager,
                resolution::EventModel::LiveAuth(None),
                times,
            );
            let account = first.1.accounts[account_id];
            let invalid = resolution::ActionModel::Return(
                Err(error::ErrorModel::RefreshTokenInvalid),
            );
            &&& without.1 == manager && without.2 == invalid
            &&& text::trimmed(live.refresh_token) == rejected ==> first.1 == manager && first.2
                == invalid
            &&& text::trimmed(live.refresh_token) != rejected && sync::differ(
                manager.accounts[account_id],
                live,
            ) ==> {
                &&& first.2 == resolution::ActionModel::Save
                &&& first.1 == manager.adopting(
                    account_id,
                    live,
                    RefreshTokenAdoptionMode::RejectedManagerToken,
                    times.now_ms,
                ).0
                &&& account.refresh_token == live.refresh_token
                &&& second.1 == first.1
                &&& second.2 == resolution::ActionModel::Refresh(live.refresh_token)
                &&& second.0 == (resolution::PhaseModel::Refreshing {
                    refresh_token: live.refresh_token,
                    retried: true,
                })
            }
        }),
{
    let account = manager.accounts[account_id];
    if sync::differ(account, live) {
        sync::rejected_tokens_are_replaced_whatever_the_time(account, live, times.now_ms);
    }
}

/// Where the credentials file holds no other tokens than the account, or the account
/// is not there, the rejection is returned, after the accounts were saved where the
/// time of the tokens has changed.
pub proof fn the_same_refresh_token_is_no_recovery(
    account_id: Seq<char>,
    manager: model::ManagerModel,
    rejected: Seq<char>,
    live: adoption::LiveModel,
    times: StepTimes,
    saved: StepTimes,
)
    requires
        text::trimmed(live.refresh_token) != rejected,
        !manager.accounts.dom().contains(account_id) || !sync::differ(
            manager.accounts[account_id],
            live,
        ),
    ensures
        ({
            let first = resolution::next_step(
                resolution::PhaseModel::ReadingLiveAgain { rejected },
                account_id,
                manager,
                resolution::EventModel::LiveAuth(Some(live)),
                times,
            );
            let second = resolution::next_step(
                first.0,
                account_id,
                first.1,
                resolution::EventModel::Saved(Ok(())),
                saved,
            );
            let invalid = resolution::ActionModel::Return(
                Err(error::ErrorModel::RefreshTokenInvalid),
            );
            &&& first.2 == invalid || first.2 == resolution::ActionModel::Save && second.2
                == invalid
            &&& first.1.access_tokens == manager.access_tokens
        }),
{
    if manager.accounts.dom().contains(account_id) {
        sync::the_same_tokens_move_the_time_alone(
            manager.accounts[account_id],
            live,
            RefreshTokenAdoptionMode::RejectedManagerToken,
            times.now_ms,
        );
    }
}

/// The whole way of a recovery: a refresh token that the server rejects, another one in
/// the file, a second exchange that succeeds, and every saving and writing too, end
/// with the access token of the second exchange, and with its tokens in the account.
pub proof fn a_recovery_ends_with_the_token_of_the_second_exchange(
    account_id: Seq<char>,
    manager: model::ManagerModel,
    live: adoption::LiveModel,
    tokens: account::TokensModel,
    rejection: StepTimes,
    recovery: StepTimes,
    recovered: StepTimes,
    times: StepTimes,
    saved: StepTimes,
    synced: StepTimes,
)
    requires
        manager.accounts.dom().contains(account_id),
        text::trimmed(live.refresh_token) != manager.accounts[account_id].refresh_token,
        live.refresh_token != manager.accounts[account_id].refresh_token,
        clock::fits_i64(times.later_ms + life_ms(tokens.expires_in)),
        clock::fits_i64(saved.later_ms + life_ms(tokens.expires_in)),
        tokens.refresh_token is Some,
        !text::blank(tokens.refresh_token->0),
    ensures
        ({
            let used = manager.accounts[account_id].refresh_token;
            let s1 = resolution::next_step(
                resolution::PhaseModel::Refreshing { refresh_token: used, retried: false },
                account_id,
                manager,
                resolution::EventModel::Refreshed(Err(error::ErrorModel::RefreshTokenInvalid)),
                rejection,
            );
            let s2 = resolution::next_step(
                s1.0,
                account_id,
                s1.1,
                resolution::EventModel::LiveAuth(Some(live)),
                recovery,
            );
            let s3 = resolution::next_step(
                s2.0,
                account_id,
                s2.1,
                resolution::EventModel::Saved(Ok(())),
                recovered,
            );
            let s4 = resolution::next_step(
                s3.0,
                account_id,
                s3.1,
                resolution::EventModel::Refreshed(Ok(tokens)),
                times,
            );
            let s5 = if s4.2 is Save {
                resolution::next_step(
                    s4.0,
                    account_id,
                    s4.1,
                    resolution::EventModel::Saved(Ok(())),
                    saved,
                )
            } else {
                s4
            };
            let s6 = resolution::next_step(
                s5.0,
                account_id,
                s5.1,
                resolution::EventModel::Synced,
                synced,
            );
            &&& s6.2 is Return
            &&& s6.2->Return_0 is Ok
            &&& s6.2->Return_0->Ok_0.token == tokens.access_token.text
            &&& s6.1.accounts[account_id].refresh_token == tokens.refresh_token->0
            &&& s6.1.access_tokens[account_id] == s6.2->Return_0->Ok_0
            &&& s5.2 is SyncLiveAuth
            &&& s5.2->SyncLiveAuth_0.previous_refresh_token == live.refresh_token
            &&& s5.2->SyncLiveAuth_0.refresh_token == tokens.refresh_token->0
        }),
{
    let used = manager.accounts[account_id].refresh_token;
    an_exchange_that_fails_is_returned(
        account_id,
        manager,
        used,
        false,
        error::ErrorModel::RefreshTokenInvalid,
        rejection,
    );
    a_rejected_token_is_recovered_from_the_file(
        account_id,
        manager,
        used,
        live,
        recovery,
        recovered,
    );
    let met = manager.adopting(
        account_id,
        live,
        RefreshTokenAdoptionMode::RejectedManagerToken,
        recovery.now_ms,
    ).0;
    assert(met.accounts.dom().contains(account_id));
    an_exchange_that_succeeds_ends_with_its_token(
        account_id,
        met,
        live.refresh_token,
        true,
        tokens,
        times,
        saved,
        synced,
    );
    sync::a_refresh_stores_what_the_reply_brings(
        met,
        account_id,
        live.refresh_token,
        tokens,
        times.now_ms,
    );
}

} // verus!
