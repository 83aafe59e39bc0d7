//! The resolution of access tokens, and the credentials file that gets them.
use crate::account;
use crate::adoption;
use crate::adoption::RefreshTokenAdoptionMode;
use crate::clock;
use crate::error;
use crate::handover;
use crate::laws::accounts;
use crate::laws::sync;
use crate::model;
use crate::resolution;
use crate::resolution::StepTimes;
use crate::text;
use vstd::prelude::*;

verus! {

/// Whether `event` is an outcome of `action`.
pub open spec fn answers(action: resolution::ActionModel, event: resolution::EventModel) -> bool {
    match action {
        resolution::ActionModel::ReadLiveAuth => event is LiveAuth,
        resolution::ActionModel::Save => event is Saved,
        resolution::ActionModel::Refresh(_) => event is Refreshed,
        resolution::ActionModel::SyncLiveAuth(_) => event is Synced,
        resolution::ActionModel::Return(_) => false,
    }
}

/// How many steps a resolution can still take at most.
pub open spec fn steps_left(phase: resolution::PhaseModel) -> nat {
    match phase {
        resolution::PhaseModel::ReadingLive => 8,
        resolution::PhaseModel::SavingAdopted => 7,
        resolution::PhaseModel::Refreshing { retried, .. } => if retried {
            3
        } else {
            6
        },
        resolution::PhaseModel::ReadingLiveAgain { .. } => 5,
        resolution::PhaseModel::SavingRecovered { .. } => 4,
        resolution::PhaseModel::SavingRenewed { .. } => 2,
        resolution::PhaseModel::Syncing { .. } => 1,
        resolution::PhaseModel::Finished => 0,
    }
}

/// A resolution can take in whatever comes of the action that it asks for, and
/// every step brings it nearer to its end, where it returns.
pub proof fn a_resolution_comes_to_its_end(
    phase: resolution::PhaseModel,
    account_id: Seq<char>,
    manager: model::ManagerModel,
    event: resolution::EventModel,
    times: StepTimes,
)
    requires
        resolution::expected(phase, event),
    ensures
        ({
            let (next, after, action) = resolution::next_step(
                phase,
                account_id,
                manager,
                event,
                times,
            );
            &&& steps_left(next) < steps_left(phase)
            &&& next is Finished <==> action is Return
            &&& forall|answer: resolution::EventModel| #[trigger]
                resolution::expected(next, answer) <==> answers(action, answer)
        }),
{
}

/// The access token that a resolution returns is kept, and its account is there.
pub proof fn a_resolved_token_is_kept(
    phase: resolution::PhaseModel,
    account_id: Seq<char>,
    manager: model::ManagerModel,
    event: resolution::EventModel,
    times: StepTimes,
)
    requires
        resolution::expected(phase, event),
    ensures
        match resolution::next_step(phase, account_id, manager, event, times) {
            (_, after, resolution::ActionModel::Return(Ok(cached))) => {
                &&& after.has(account_id)
                &&& model::lookup(after.access_tokens, account_id) == Some(cached)
            },
            _ => true,
        },
{
}

/// A resolution returns no access token after a failure to save, and the failure is
/// what it returns.
pub proof fn a_failure_to_save_ends_a_resolution(
    phase: resolution::PhaseModel,
    account_id: Seq<char>,
    manager: model::ManagerModel,
    failure: error::ErrorModel,
    times: StepTimes,
)
    ensures
        resolution::next_step(
            phase,
            account_id,
            manager,
            resolution::EventModel::Saved(Err(failure)),
            times,
        ) == resolution::returning(manager, Err(failure)),
{
}

/// A refresh token that the server rejects is tried once: what is tried after it is
/// another one, and the account keeps that one already.
pub proof fn a_rejected_token_is_not_tried_again(
    account_id: Seq<char>,
    manager: model::ManagerModel,
    rejected: Seq<char>,
    live: Option<adoption::LiveModel>,
    times: StepTimes,
)
    ensures
        match resolution::next_step(
            resolution::PhaseModel::ReadingLiveAgain { rejected },
            account_id,
            manager,
            resolution::EventModel::LiveAuth(live),
            times,
        ) {
            (
                resolution::PhaseModel::SavingRecovered { refresh_token, adopted },
                after,
                action,
            ) => {
                &&& text::trimmed(refresh_token) != rejected
                &&& adopted ==> after.has(account_id)
                    && after.accounts[account_id].refresh_token == refresh_token
            },
            (next, after, action) => action == resolution::ActionModel::Return(
                Err(error::ErrorModel::RefreshTokenInvalid),
            ),
        },
{
}

/// The refresh token that is exchanged first is the one that the account keeps.
pub proof fn the_first_exchange_uses_the_token_of_the_account(
    phase: resolution::PhaseModel,
    account_id: Seq<char>,
    manager: model::ManagerModel,
    event: resolution::EventModel,
    times: StepTimes,
)
    requires
        resolution::expected(phase, event),
        phase is ReadingLive || phase is SavingAdopted,
    ensures
        match resolution::next_step(phase, account_id, manager, event, times) {
            (_, after, resolution::ActionModel::Refresh(refresh_token)) => after.has(account_id)
                && after.accounts[account_id].refresh_token == refresh_token,
            _ => true,
        },
{
}

/// A resolution keeps the authentication center sound, and concerns one account
/// alone.
pub proof fn a_resolution_stays_sound(
    phase: resolution::PhaseModel,
    account_id: Seq<char>,
    manager: model::ManagerModel,
    event: resolution::EventModel,
    times: StepTimes,
    other: Seq<char>,
)
    requires
        resolution::expected(phase, event),
        accounts::sound(manager),
        other != account_id,
    ensures
        ({
            let after = resolution::next_step(phase, account_id, manager, event, times).1;
            &&& accounts::sound(after)
            &&& model::lookup(after.accounts, other) == model::lookup(manager.accounts, other)
            &&& model::lookup(after.access_tokens, other) == model::lookup(
                manager.access_tokens,
                other,
            )
            &&& after.default_account_id == manager.default_account_id
            &&& after.pending_device_codes == manager.pending_device_codes
        }),
{
    match (phase, event) {
        (resolution::PhaseModel::ReadingLive, resolution::EventModel::LiveAuth(Some(live))) => {
            lemma_adopting(
                manager,
                account_id,
                live,
                RefreshTokenAdoptionMode::TimestampChecked,
                times.now_ms,
                other,
            );
        },
        (
            resolution::PhaseModel::ReadingLiveAgain { .. },
            resolution::EventModel::LiveAuth(Some(live)),
        ) => {
            lemma_adopting(
                manager,
                account_id,
                live,
                RefreshTokenAdoptionMode::RejectedManagerToken,
                times.now_ms,
                other,
            );
        },
        (
            resolution::PhaseModel::Refreshing { refresh_token, .. },
            resolution::EventModel::Refreshed(Ok(tokens)),
        ) => {
            accounts::renewing_stays_sound(
                manager,
                account_id,
                refresh_token,
                tokens,
                times.now_ms,
            );
        },
        (resolution::PhaseModel::Syncing { cached }, resolution::EventModel::Synced) => {
            accounts::caching_stays_sound(manager, account_id, cached);
        },
        _ => {},
    }
}

proof fn lemma_adopting(
    manager: model::ManagerModel,
    account_id: Seq<char>,
    live: adoption::LiveModel,
    mode: RefreshTokenAdoptionMode,
    now_ms: i64,
    other: Seq<char>,
)
    requires
        accounts::sound(manager),
        other != account_id,
    ensures
        ({
            let after = manager.adopting(account_id, live, mode, now_ms).0;
            &&& accounts::sound(after)
            &&& model::lookup(after.accounts, other) == model::lookup(manager.accounts, other)
            &&& model::lookup(after.access_tokens, other) == model::lookup(
                manager.access_tokens,
                other,
            )
            &&& after.default_account_id == manager.default_account_id
            &&& after.pending_device_codes == manager.pending_device_codes
        }),
{
    sync::adoption_leaves_the_rest_alone(manager, account_id, live, mode, now_ms, other);
    accounts::adopting_stays_sound(manager, account_id, live, mode, now_ms);
}

/// The assembly of a bundle and the giving up of the file take at most two steps:
/// after the first one they have returned or wait for the accounts to be saved, and
/// after that they have returned.
pub proof fn a_handover_comes_to_its_end(
    phase: handover::HandoverPhaseModel,
    account_id: Seq<char>,
    cached: account::CachedModel,
    manager: model::ManagerModel,
    event: handover::HandoverEventModel,
    times: StepTimes,
)
    requires
        handover::handover_expected(phase, event),
    ensures
        match handover::next_bundle_step(phase, account_id, cached, manager, event, times) {
            (next, _, handover::HandoverActionModel::Return(_)) => next is Finished,
            (next, _, handover::HandoverActionModel::Save) => phase is ReadingLive
                && next is Saving,
            (_, _, handover::HandoverActionModel::ReadLiveAuth) => false,
        },
        match handover::next_switch_step(phase, account_id, manager, event, times.now_ms) {
            (next, _, handover::HandoverActionModel::Return(_)) => next is Finished,
            (next, _, handover::HandoverActionModel::Save) => phase is ReadingLive
                && next is Saving,
            (_, _, handover::HandoverActionModel::ReadLiveAuth) => false,
        },
{
}

/// Handing tokens over and giving the file up keep the authentication center sound,
/// and concern one account alone.
pub proof fn a_handover_stays_sound(
    phase: handover::HandoverPhaseModel,
    account_id: Seq<char>,
    cached: account::CachedModel,
    manager: model::ManagerModel,
    event: handover::HandoverEventModel,
    times: StepTimes,
    other: Seq<char>,
)
    requires
        handover::handover_expected(phase, event),
        accounts::sound(manager),
        other != account_id,
    ensures
        ({
            let bundled = handover::next_bundle_step(
                phase,
                account_id,
                cached,
                manager,
                event,
                times,
            ).1;
            let switched = handover::next_switch_step(
                phase,
                account_id,
                manager,
                event,
                times.now_ms,
            ).1;
            &&& bundled == switched
            &&& accounts::sound(bundled)
            &&& model::lookup(bundled.accounts, other) == model::lookup(manager.accounts, other)
            &&& model::lookup(bundled.access_tokens, other) == model::lookup(
                manager.access_tokens,
                other,
            )
            &&& bundled.default_account_id == manager.default_account_id
            &&& bundled.pending_device_codes == manager.pending_device_codes
        }),
{
    match event {
        handover::HandoverEventModel::LiveAuth(Some(live)) => {
            lemma_adopting(
                manager,
                account_id,
                live,
                RefreshTokenAdoptionMode::TimestampChecked,
                times.now_ms,
                other,
            );
        },
        _ => {},
    }
}

/// The time that goes into the credentials file is the one at which the access token
/// was obtained, whenever the file is written.
pub proof fn the_written_time_is_when_the_token_was_obtained(
    account_id: Seq<char>,
    renewed: resolution::RenewedModel,
    account: account::AccountModel,
    cached: account::CachedModel,
    written_ms: i64,
)
    ensures
        clock::writable(renewed.obtained_at_ms) ==> resolution::update_of(
            account_id,
            renewed,
            written_ms,
        ).last_refresh == clock::rfc3339_text(renewed.obtained_at_ms)->0,
        clock::writable(cached.obtained_at_ms) ==> handover::bundle_of(
            account,
            cached,
            written_ms,
        ).last_refresh == clock::rfc3339_text(cached.obtained_at_ms)->0,
{
}

/// Whether the tokens in the credentials file are those of the account, or are
/// known to be older.
pub open spec fn may_be_overwritten(
    manager: model::ManagerModel,
    account_id: Seq<char>,
    live: adoption::LiveModel,
) -> bool {
    &&& manager.has(account_id)
    &&& {
        ||| adoption::same_tokens(manager.accounts[account_id], live)
        ||| adoption::dated(manager.accounts[account_id]) && adoption::earlier(
            manager.accounts[account_id],
            live,
        )
    }
}

/// What the assembly of a bundle returns where the credentials file holds `live`
/// and every saving succeeds.
pub open spec fn bundle_with_live(
    manager: model::ManagerModel,
    account_id: Seq<char>,
    cached: account::CachedModel,
    live: adoption::LiveModel,
    times: StepTimes,
    more_times: StepTimes,
) -> handover::HandoverActionModel<handover::BundleModel> {
    let (next, after, action) = handover::next_bundle_step(
        handover::HandoverPhaseModel::ReadingLive,
        account_id,
        cached,
        manager,
        handover::HandoverEventModel::LiveAuth(Some(live)),
        times,
    );
    match action {
        handover::HandoverActionModel::Save => handover::next_bundle_step(
            next,
            account_id,
            cached,
            after,
            handover::HandoverEventModel::Saved(Ok(())),
            more_times,
        ).2,
        _ => action,
    }
}

/// A bundle is handed over exactly where the tokens in the credentials file may be
/// overwritten, and its refresh token and ID token are those that the account had
/// all the time.
pub proof fn a_bundle_never_mixes_tokens(
    manager: model::ManagerModel,
    account_id: Seq<char>,
    cached: account::CachedModel,
    live: adoption::LiveModel,
    times: StepTimes,
    more_times: StepTimes,
)
    ensures
        match bundle_with_live(manager, account_id, cached, live, times, more_times) {
            handover::HandoverActionModel::Return(Ok(bundle)) => {
                let account = manager.accounts[account_id];
                &&& may_be_overwritten(manager, account_id, live)
                &&& bundle.access_token == cached.token
                &&& bundle.refresh_token == account.refresh_token
                &&& bundle.chatgpt_account_id == account.effective_workspace()
                &&& bundle.id_token == match account.id_token {
                    Some(token) => Some(token.text),
                    None => None,
                }
            },
            handover::HandoverActionModel::Return(Err(_)) => !may_be_overwritten(
                manager,
                account_id,
                live,
            ),
            _ => false,
        },
{
}

/// What the giving up of the credentials file returns where it holds `live` and
/// every saving succeeds, and the accounts after that.
pub open spec fn switch_with_live(
    manager: model::ManagerModel,
    account_id: Seq<char>,
    live: adoption::LiveModel,
    now_ms: i64,
) -> (model::ManagerModel, handover::HandoverActionModel<Option<Seq<char>>>) {
    let (next, after, action) = handover::next_switch_step(
        handover::HandoverPhaseModel::ReadingLive,
        account_id,
        manager,
        handover::HandoverEventModel::LiveAuth(Some(live)),
        now_ms,
    );
    match action {
        handover::HandoverActionModel::Save => (
            after,
            handover::next_switch_step(
                next,
                account_id,
                after,
                handover::HandoverEventModel::Saved(Ok(())),
                now_ms,
            ).2,
        ),
        _ => (after, action),
    }
}

/// The credentials file is given up only where its tokens are kept by the account
/// then, or are known to be older; what is returned is the refresh token that it
/// holds.
pub proof fn giving_the_file_up_loses_no_tokens(
    manager: model::ManagerModel,
    account_id: Seq<char>,
    live: adoption::LiveModel,
    now_ms: i64,
)
    ensures
        match switch_with_live(manager, account_id, live, now_ms) {
            (after, handover::HandoverActionModel::Return(Ok(refresh_token))) => {
                &&& refresh_token == Some(live.refresh_token)
                &&& may_be_overwritten(after, account_id, live)
            },
            (after, handover::HandoverActionModel::Return(Err(_))) => after == manager
                && !may_be_overwritten(manager, account_id, live),
            _ => false,
        },
{
    let mode = RefreshTokenAdoptionMode::TimestampChecked;
    sync::unchanged_means_unchanged(manager, account_id, live, mode, now_ms);
    if manager.has(account_id) {
        let account = manager.accounts[account_id];
        let outcome = adoption::outcome_for(account, live, mode);
        if outcome is Adopted || outcome is Synchronized {
            sync::meeting_the_same_tokens_again_changes_nothing(
                account,
                live,
                mode,
                mode,
                now_ms,
                now_ms,
            );
        }
    }
}

/// A handover waits for the event that answers what it asks for, and for no other.
pub proof fn a_handover_takes_in_what_it_asks_for(
    phase: handover::HandoverPhaseModel,
    event: handover::HandoverEventModel,
)
    ensures
        handover::handover_expected(phase, event) <==> match phase {
            handover::HandoverPhaseModel::ReadingLive => event is LiveAuth,
            handover::HandoverPhaseModel::Saving { .. } => event is Saved,
            handover::HandoverPhaseModel::Finished => false,
        },
{
}

/// Without tokens of the account in the credentials file, the bundle is that of the
/// account as it is kept, and the file can be given up at once.
pub proof fn a_file_without_the_account_stands_in_no_way(
    manager: model::ManagerModel,
    account_id: Seq<char>,
    cached: account::CachedModel,
    times: StepTimes,
)
    ensures
        ({
            let none = handover::HandoverEventModel::LiveAuth(None);
            let bundled = handover::next_bundle_step(
                handover::HandoverPhaseModel::ReadingLive,
                account_id,
                cached,
                manager,
                none,
                times,
            );
            let switched = handover::next_switch_step(
                handover::HandoverPhaseModel::ReadingLive,
                account_id,
                manager,
                none,
                times.now_ms,
            );
            let account = manager.accounts[account_id];
            let result = bundled.2->Return_0;
            &&& bundled.1 == manager && switched.1 == manager
            &&& switched.2 == handover::HandoverActionModel::<Option<Seq<char>>>::Return(Ok(None))
            &&& bundled.2 is Return
            &&& !manager.accounts.dom().contains(account_id) ==> result == Err::<
                handover::BundleModel,
                _,
            >(error::ErrorModel::AccountNotFound(account_id))
            &&& manager.accounts.dom().contains(account_id) ==> {
                &&& result is Ok
                &&& result->Ok_0.access_token == cached.token
                &&& result->Ok_0.refresh_token == account.refresh_token
                &&& account.id_token is Some ==> result->Ok_0.id_token == Some(
                    account.id_token->0.text,
                )
                &&& account.id_token is None ==> result->Ok_0.id_token is None
                &&& result->Ok_0.chatgpt_account_id == account.effective_workspace()
                &&& result->Ok_0.last_refresh == clock::time_text(
                    cached.obtained_at_ms,
                    times.later_ms,
                )
            }
        }),
{
}

/// Whether the tokens in the credentials file are newer than those of the account.
pub open spec fn newer_in_the_file(
    account: account::AccountModel,
    live: adoption::LiveModel,
) -> bool {
    &&& sync::differ(account, live)
    &&& account.token_updated_at_ms > 0
    &&& live.last_refresh_ms is Some
    &&& live.last_refresh_ms->0 > account.token_updated_at_ms
}

/// Whether the tokens in the credentials file are older than those of the account.
pub open spec fn older_in_the_file(
    account: account::AccountModel,
    live: adoption::LiveModel,
) -> bool {
    &&& sync::differ(account, live)
    &&& account.token_updated_at_ms > 0
    &&& live.last_refresh_ms is Some
    &&& live.last_refresh_ms->0 < account.token_updated_at_ms
}

/// A bundle is refused where the account is not there, where the file holds newer
/// tokens, which the account takes over instead, and where it is not known which are
/// newer; each with its own error. It is handed over where the file holds the same
/// tokens or older ones, with the time at which the access token was obtained.
pub proof fn a_bundle_is_refused_for_its_reason(
    manager: model::ManagerModel,
    account_id: Seq<char>,
    cached: account::CachedModel,
    live: adoption::LiveModel,
    times: StepTimes,
    more_times: StepTimes,
)
    ensures
        ({
            let there = manager.accounts.dom().contains(account_id);
            let account = manager.accounts[account_id];
            let action = bundle_with_live(manager, account_id, cached, live, times, more_times);
            let result = action->Return_0;
            &&& action is Return
            &&& !there ==> result == Err::<handover::BundleModel, _>(
                error::ErrorModel::AccountNotFound(account_id),
            )
            &&& there && newer_in_the_file(account, live) ==> result == Err::<
                handover::BundleModel,
                _,
            >(
                error::ErrorModel::TokenFetchFailed(
                    "Codex CLI 账号 "@ + account_id
                        + " 的磁盘凭据在准备写入期间已刷新；为避免写入混合 token bundle，本次操作已取消，请重试"@,
                ),
            )
            &&& there && sync::differ(account, live) && !newer_in_the_file(account, live)
                && !older_in_the_file(account, live) ==> result == Err::<handover::BundleModel, _>(
                error::ErrorModel::TokenFetchFailed(
                    "Codex CLI 账号 "@ + account_id
                        + " 的磁盘凭据已变化，但无法安全判断 refresh token 新旧；为避免覆盖或删除有效登录，本次操作已取消。请先在认证中心重新登录该账号；若仍失败，请移除后重新登录"@,
                ),
            )
            &&& there && (!sync::differ(account, live) || older_in_the_file(account, live)) ==> {
                &&& result is Ok
                &&& result->Ok_0.access_token == cached.token
                &&& result->Ok_0.refresh_token == account.refresh_token
                &&& clock::writable(cached.obtained_at_ms) ==> result->Ok_0.last_refresh
                    == clock::rfc3339_text(cached.obtained_at_ms)->0
            }
        }),
{
}

/// The credentials file is given up where the account keeps its tokens, or takes them
/// over, or has newer ones; otherwise the error says why it is not.
pub proof fn the_file_is_kept_for_its_reason(
    manager: model::ManagerModel,
    account_id: Seq<char>,
    live: adoption::LiveModel,
    now_ms: i64,
)
    ensures
        ({
            let there = manager.accounts.dom().contains(account_id);
            let account = manager.accounts[account_id];
            let (after, action) = switch_with_live(manager, account_id, live, now_ms);
            let result = action->Return_0;
            &&& action is Return
            &&& !there ==> result == Err::<Option<Seq<char>>, _>(
                error::ErrorModel::AccountNotFound(account_id),
            )
            &&& there && sync::differ(account, live) && !newer_in_the_file(account, live)
                && !older_in_the_file(account, live) ==> result == Err::<Option<Seq<char>>, _>(
                error::ErrorModel::TokenFetchFailed(
                    "Codex CLI 账号 "@ + account_id
                        + " 的磁盘凭据已变化，但无法安全判断 refresh token 新旧；为避免覆盖或删除有效登录，本次操作已取消。请先在认证中心重新登录该账号；若仍失败，请移除后重新登录"@,
                ),
            )
            &&& there && (!sync::differ(account, live) || newer_in_the_file(account, live)
                || older_in_the_file(account, live)) ==> result == Ok::<_, error::ErrorModel>(
                Some(live.refresh_token),
            )
            &&& there && newer_in_the_file(account, live)
                ==> after.accounts[account_id].refresh_token == live.refresh_token
            &&& there && newer_in_the_file(account, live) ==> !after.access_tokens.dom().contains(
                account_id,
            )
        }),
{
}

/// A handover saves the accounts exactly where meeting the file has changed them, and a
/// failure to save is what it returns; meeting the file is all that changes them.
pub proof fn a_handover_saves_what_it_changed(
    manager: model::ManagerModel,
    account_id: Seq<char>,
    cached: account::CachedModel,
    live: adoption::LiveModel,
    outcome: crate::adoption::RefreshTokenAdoptionOutcome,
    refresh_token: Seq<char>,
    failure: error::ErrorModel,
    times: StepTimes,
)
    ensures
        ({
            let reading = handover::HandoverPhaseModel::ReadingLive;
            let saving = handover::HandoverPhaseModel::Saving { outcome, refresh_token };
            let found = handover::HandoverEventModel::LiveAuth(Some(live));
            let failed = handover::HandoverEventModel::Saved(Err(failure));
            let bundled = handover::next_bundle_step(
                reading,
                account_id,
                cached,
                manager,
                found,
                times,
            );
            let switched = handover::next_switch_step(
                reading,
                account_id,
                manager,
                found,
                times.now_ms,
            );
            let (met, met_outcome) = manager.adopting(
                account_id,
                live,
                RefreshTokenAdoptionMode::TimestampChecked,
                times.now_ms,
            );
            &&& bundled.1 == met && switched.1 == met
            &&& bundled.2 is Save <==> met_outcome.changed()
            &&& switched.2 is Save <==> met_outcome.changed()
            &&& handover::next_bundle_step(saving, account_id, cached, manager, failed, times) == (
                handover::HandoverPhaseModel::Finished,
                manager,
                handover::HandoverActionModel::<handover::BundleModel>::Return(Err(failure)),
            )
            &&& handover::next_switch_step(saving, account_id, manager, failed, times.now_ms) == (
                handover::HandoverPhaseModel::Finished,
                manager,
                handover::HandoverActionModel::<Option<Seq<char>>>::Return(Err(failure)),
            )
        }),
{
}

} // verus!
