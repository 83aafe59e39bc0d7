//! Resolving an access token, step by step.
//!
//! The caller performs each action and hands the event back. Between two steps the
//! caller keeps the tokens of the account from being resolved a second time.
use crate::account;
use crate::account::{CachedAccessToken, OAuthTokenResponse};
use crate::adoption;
use crate::adoption::{LiveAuth, RefreshTokenAdoptionMode, RefreshTokenAdoptionOutcome};
use crate::claims;
use crate::claims::DecodedToken;
use crate::clock;
use crate::clock::{compute_expires_at_ms_from, current_time_ms, last_refresh_text_at};
use crate::error;
use crate::error::CodexOAuthError;
use crate::identity;
use crate::identity::native_tokens_account_id;
use crate::manager::CodexOAuthManager;
use crate::model;
use crate::text;
use crate::text::{as_text, same_text, trim};
use vstd::prelude::*;

verus! {

/// Tokens that a refresh has brought and that the account keeps already.
#[derive(Debug)]
pub struct RenewedTokens {
    /// The refresh token that was used.
    pub used: String,
    pub access_token: String,
    pub expires_in: Option<i64>,
    /// When the tokens were obtained, in milliseconds.
    pub obtained_at_ms: i64,
    /// The refresh token of the account.
    pub refresh_token: String,
    /// The ID token of the account.
    pub id_token: Option<DecodedToken>,
    /// The workspace of the account.
    pub chatgpt_account_id: Option<String>,
}

/// The model of [`RenewedTokens`].
pub struct RenewedModel {
    pub used: Seq<char>,
    pub access_token: Seq<char>,
    pub expires_in: Option<i64>,
    pub obtained_at_ms: i64,
    pub refresh_token: Seq<char>,
    pub id_token: Option<claims::TokenModel>,
    pub chatgpt_account_id: Option<Seq<char>>,
}

impl View for RenewedTokens {
    type V = RenewedModel;

    open spec fn view(&self) -> RenewedModel {
        RenewedModel {
            used: self.used@,
            access_token: self.access_token@,
            expires_in: self.expires_in,
            obtained_at_ms: self.obtained_at_ms,
            refresh_token: self.refresh_token@,
            id_token: text::view_opt(self.id_token),
            chatgpt_account_id: text::view_opt(self.chatgpt_account_id),
        }
    }
}

/// What is to stand in the credentials file, where it still holds
/// `previous_refresh_token` for the account.
#[derive(Debug)]
pub struct LiveAuthUpdate {
    pub account_id: String,
    pub previous_refresh_token: String,
    pub tokens_account_id: String,
    pub access_token: String,
    pub id_token: Option<String>,
    pub refresh_token: String,
    pub last_refresh: String,
}

/// The model of [`LiveAuthUpdate`].
pub struct UpdateModel {
    pub account_id: Seq<char>,
    pub previous_refresh_token: Seq<char>,
    pub tokens_account_id: Seq<char>,
    pub access_token: Seq<char>,
    pub id_token: Option<Seq<char>>,
    pub refresh_token: Seq<char>,
    pub last_refresh: Seq<char>,
}

impl View for LiveAuthUpdate {
    type V = UpdateModel;

    open spec fn view(&self) -> UpdateModel {
        UpdateModel {
            account_id: self.account_id@,
            previous_refresh_token: self.previous_refresh_token@,
            tokens_account_id: self.tokens_account_id@,
            access_token: self.access_token@,
            id_token: text::view_opt(self.id_token),
            refresh_token: self.refresh_token@,
            last_refresh: self.last_refresh@,
        }
    }
}

/// What a resolution waits for.
#[derive(Debug)]
pub enum ResolutionPhase {
    /// The credentials file is being read.
    ReadingLive,
    /// The accounts are being saved, after the account met the credentials file.
    SavingAdopted,
    /// The refresh token is being exchanged, for the second time where `retried`.
    Refreshing { refresh_token: String, retried: bool },
    /// The credentials file is being read, after the server rejected the refresh
    /// token.
    ReadingLiveAgain { rejected: String },
    /// The accounts are being saved, after the account met the credentials file with
    /// its refresh token rejected.
    SavingRecovered { refresh_token: String, adopted: bool },
    /// The accounts are being saved, after the tokens were refreshed.
    SavingRenewed { renewed: RenewedTokens },
    /// The credentials file is being written.
    Syncing { cached: CachedAccessToken },
    /// The resolution has returned.
    Finished,
}

/// The model of [`ResolutionPhase`].
pub enum PhaseModel {
    ReadingLive,
    SavingAdopted,
    Refreshing { refresh_token: Seq<char>, retried: bool },
    ReadingLiveAgain { rejected: Seq<char> },
    SavingRecovered { refresh_token: Seq<char>, adopted: bool },
    SavingRenewed { renewed: RenewedModel },
    Syncing { cached: account::CachedModel },
    Finished,
}

impl View for ResolutionPhase {
    type V = PhaseModel;

    open spec fn view(&self) -> PhaseModel {
        match self {
            ResolutionPhase::ReadingLive => PhaseModel::ReadingLive,
            ResolutionPhase::SavingAdopted => PhaseModel::SavingAdopted,
            ResolutionPhase::Refreshing { refresh_token, retried } => PhaseModel::Refreshing {
                refresh_token: refresh_token@,
                retried: *retried,
            },
            ResolutionPhase::ReadingLiveAgain { rejected } => PhaseModel::ReadingLiveAgain {
                rejected: rejected@,
            },
            ResolutionPhase::SavingRecovered { refresh_token, adopted } => {
                PhaseModel::SavingRecovered { refresh_token: refresh_token@, adopted: *adopted }
            },
            ResolutionPhase::SavingRenewed { renewed } => PhaseModel::SavingRenewed {
                renewed: renewed@,
            },
            ResolutionPhase::Syncing { cached } => PhaseModel::Syncing { cached: cached@ },
            ResolutionPhase::Finished => PhaseModel::Finished,
        }
    }
}

/// What has happened.
#[derive(Debug)]
pub enum ResolutionEvent {
    /// The credentials file was read: what it holds for the account.
    LiveAuth(Option<LiveAuth>),
    /// The accounts were saved, or could not be.
    Saved(Result<(), CodexOAuthError>),
    /// The refresh token was exchanged, or could not be.
    Refreshed(Result<OAuthTokenResponse, CodexOAuthError>),
    /// The credentials file was written, or could not be: the tokens are valid
    /// either way.
    Synced,
}

/// The model of [`ResolutionEvent`].
pub enum EventModel {
    LiveAuth(Option<adoption::LiveModel>),
    Saved(Result<(), error::ErrorModel>),
    Refreshed(Result<account::TokensModel, error::ErrorModel>),
    Synced,
}

impl View for ResolutionEvent {
    type V = EventModel;

    open spec fn view(&self) -> EventModel {
        match self {
            ResolutionEvent::LiveAuth(live) => EventModel::LiveAuth(text::view_opt(*live)),
            ResolutionEvent::Saved(result) => EventModel::Saved(error::view_result(*result)),
            ResolutionEvent::Refreshed(result) => EventModel::Refreshed(
                error::view_result(*result),
            ),
            ResolutionEvent::Synced => EventModel::Synced,
        }
    }
}

/// What is to be done next.
#[derive(Debug)]
pub enum ResolutionAction {
    /// Read what the credentials file holds for the account.
    ReadLiveAuth,
    /// Save the accounts.
    Save,
    /// Exchange the refresh token.
    Refresh(String),
    /// Write the credentials file.
    SyncLiveAuth(LiveAuthUpdate),
    /// Return.
    Return(Result<CachedAccessToken, CodexOAuthError>),
}

/// The model of [`ResolutionAction`].
pub enum ActionModel {
    ReadLiveAuth,
    Save,
    Refresh(Seq<char>),
    SyncLiveAuth(UpdateModel),
    Return(Result<account::CachedModel, error::ErrorModel>),
}

impl View for ResolutionAction {
    type V = ActionModel;

    open spec fn view(&self) -> ActionModel {
        match self {
            ResolutionAction::ReadLiveAuth => ActionModel::ReadLiveAuth,
            ResolutionAction::Save => ActionModel::Save,
            ResolutionAction::Refresh(refresh_token) => ActionModel::Refresh(refresh_token@),
            ResolutionAction::SyncLiveAuth(update) => ActionModel::SyncLiveAuth(update@),
            ResolutionAction::Return(result) => ActionModel::Return(error::view_result(*result)),
        }
    }
}

/// The clock readings of a step, the second one later than the first.
#[derive(Debug, Clone, Copy)]
pub struct StepTimes {
    pub now_ms: i64,
    pub later_ms: i64,
}

impl StepTimes {
    /// Whether the clock can show these times.
    pub open spec fn shown(self) -> bool {
        clock::clock_shows_ms(self.now_ms) && clock::clock_shows_ms(self.later_ms)
    }
}

/// A resolution, the accounts, and what is to be done next.
pub type Step = (PhaseModel, model::ManagerModel, ActionModel);

/// Whether `event` is what a resolution in `phase` waits for.
pub open spec fn expected(phase: PhaseModel, event: EventModel) -> bool {
    match phase {
        PhaseModel::ReadingLive => event is LiveAuth,
        PhaseModel::SavingAdopted => event is Saved,
        PhaseModel::Refreshing { .. } => event is Refreshed,
        PhaseModel::ReadingLiveAgain { .. } => event is LiveAuth,
        PhaseModel::SavingRecovered { .. } => event is Saved,
        PhaseModel::SavingRenewed { .. } => event is Saved,
        PhaseModel::Syncing { .. } => event is Synced,
        PhaseModel::Finished => false,
    }
}

/// Returning `result`.
pub open spec fn returning(
    manager: model::ManagerModel,
    result: Result<account::CachedModel, error::ErrorModel>,
) -> Step {
    (PhaseModel::Finished, manager, ActionModel::Return(result))
}

/// Returning the access token that is kept, where it can be used at `now_ms`, and
/// refreshing it otherwise.
pub open spec fn using_or_refreshing(
    manager: model::ManagerModel,
    account_id: Seq<char>,
    now_ms: i64,
) -> Step {
    match manager.cached_token(account_id, now_ms) {
        Ok(Some(cached)) => returning(manager, Ok(cached)),
        Ok(None) => {
            let refresh_token = manager.accounts[account_id].refresh_token;
            (
                PhaseModel::Refreshing { refresh_token, retried: false },
                manager,
                ActionModel::Refresh(refresh_token),
            )
        },
        Err(error) => returning(manager, Err(error)),
    }
}

/// The access token among `renewed`, whose life counts from `later_ms` on.
pub open spec fn access_token_of(renewed: RenewedModel, later_ms: i64) -> account::CachedModel {
    account::CachedModel {
        token: renewed.access_token,
        expires_at_ms: clock::expires_at(later_ms, renewed.expires_in) as i64,
        obtained_at_ms: renewed.obtained_at_ms,
    }
}

/// What is to stand in the credentials file after a refresh. The account in it is
/// never a key that names a person.
pub open spec fn update_of(
    account_id: Seq<char>,
    renewed: RenewedModel,
    later_ms: i64,
) -> UpdateModel {
    UpdateModel {
        account_id,
        previous_refresh_token: renewed.used,
        tokens_account_id: identity::native_account(renewed.chatgpt_account_id, account_id),
        access_token: renewed.access_token,
        id_token: match renewed.id_token {
            Some(token) => Some(token.text),
            None => None,
        },
        refresh_token: renewed.refresh_token,
        last_refresh: clock::time_text(renewed.obtained_at_ms, later_ms),
    }
}

/// Writing the credentials file after a refresh.
pub open spec fn syncing(
    manager: model::ManagerModel,
    account_id: Seq<char>,
    renewed: RenewedModel,
    later_ms: i64,
) -> Step {
    (
        PhaseModel::Syncing { cached: access_token_of(renewed, later_ms) },
        manager,
        ActionModel::SyncLiveAuth(update_of(account_id, renewed, later_ms)),
    )
}

/// The tokens of a refresh at `obtained_at_ms` that the account has kept as
/// `renewal`.
pub open spec fn renewed_tokens(
    used: Seq<char>,
    tokens: account::TokensModel,
    obtained_at_ms: i64,
    renewal: model::RenewalModel,
) -> RenewedModel {
    RenewedModel {
        used,
        access_token: tokens.access_token.text,
        expires_in: tokens.expires_in,
        obtained_at_ms,
        refresh_token: renewal.refresh_token,
        id_token: renewal.id_token,
        chatgpt_account_id: renewal.chatgpt_account_id,
    }
}

/// Meeting the credentials file before a refresh.
pub open spec fn meeting(
    manager: model::ManagerModel,
    account_id: Seq<char>,
    live: Option<adoption::LiveModel>,
    now_ms: i64,
) -> Step {
    match live {
        Some(live) => {
            let (after, outcome) = manager.adopting(
                account_id,
                live,
                RefreshTokenAdoptionMode::TimestampChecked,
                now_ms,
            );
            if outcome.changed() {
                (PhaseModel::SavingAdopted, after, ActionModel::Save)
            } else {
                using_or_refreshing(after, account_id, now_ms)
            }
        },
        None => using_or_refreshing(manager, account_id, now_ms),
    }
}

/// Meeting the credentials file after the server rejected the refresh token
/// `rejected`: only another refresh token helps.
pub open spec fn recovering(
    manager: model::ManagerModel,
    account_id: Seq<char>,
    rejected: Seq<char>,
    live: Option<adoption::LiveModel>,
    now_ms: i64,
) -> Step {
    match live {
        Some(live) => if text::trimmed(live.refresh_token) == rejected {
            returning(manager, Err(error::ErrorModel::RefreshTokenInvalid))
        } else {
            let (after, outcome) = manager.adopting(
                account_id,
                live,
                RefreshTokenAdoptionMode::RejectedManagerToken,
                now_ms,
            );
            if outcome.changed() {
                (
                    PhaseModel::SavingRecovered {
                        refresh_token: live.refresh_token,
                        adopted: outcome == RefreshTokenAdoptionOutcome::Adopted,
                    },
                    after,
                    ActionModel::Save,
                )
            } else {
                returning(after, Err(error::ErrorModel::RefreshTokenInvalid))
            }
        },
        None => returning(manager, Err(error::ErrorModel::RefreshTokenInvalid)),
    }
}

/// Storing the tokens of a refresh.
pub open spec fn storing(
    manager: model::ManagerModel,
    account_id: Seq<char>,
    used: Seq<char>,
    tokens: account::TokensModel,
    times: StepTimes,
) -> Step {
    let (after, outcome) = manager.renewing(account_id, used, tokens, times.now_ms);
    match outcome {
        Ok(renewal) => {
            let renewed = renewed_tokens(used, tokens, times.now_ms, renewal);
            if renewal.needs_save {
                (PhaseModel::SavingRenewed { renewed }, after, ActionModel::Save)
            } else {
                syncing(after, account_id, renewed, times.later_ms)
            }
        },
        Err(error) => returning(after, Err(error)),
    }
}

/// Keeping the access token and returning it.
pub open spec fn keeping(
    manager: model::ManagerModel,
    account_id: Seq<char>,
    cached: account::CachedModel,
) -> Step {
    let (after, outcome) = manager.caching(account_id, cached);
    match outcome {
        Ok(_) => returning(after, Ok(cached)),
        Err(error) => returning(after, Err(error)),
    }
}

/// What follows from `event`. One that is not expected leaves everything as it is.
pub open spec fn next_step(
    phase: PhaseModel,
    account_id: Seq<char>,
    manager: model::ManagerModel,
    event: EventModel,
    times: StepTimes,
) -> Step {
    match (phase, event) {
        (_, EventModel::Saved(Err(error))) => returning(manager, Err(error)),
        (PhaseModel::ReadingLive, EventModel::LiveAuth(live)) => meeting(
            manager,
            account_id,
            live,
            times.now_ms,
        ),
        (PhaseModel::SavingAdopted, EventModel::Saved(Ok(_))) => using_or_refreshing(
            manager,
            account_id,
            times.now_ms,
        ),
        (
            PhaseModel::Refreshing { refresh_token, retried },
            EventModel::Refreshed(Err(error)),
        ) => if error is RefreshTokenInvalid && !retried {
            (
                PhaseModel::ReadingLiveAgain { rejected: refresh_token },
                manager,
                ActionModel::ReadLiveAuth,
            )
        } else {
            returning(manager, Err(error))
        },
        (
            PhaseModel::Refreshing { refresh_token, retried },
            EventModel::Refreshed(Ok(tokens)),
        ) => storing(manager, account_id, refresh_token, tokens, times),
        (PhaseModel::ReadingLiveAgain { rejected }, EventModel::LiveAuth(live)) => recovering(
            manager,
            account_id,
            rejected,
            live,
            times.now_ms,
        ),
        (
            PhaseModel::SavingRecovered { refresh_token, adopted },
            EventModel::Saved(Ok(_)),
        ) => if adopted {
            (
                PhaseModel::Refreshing { refresh_token, retried: true },
                manager,
                ActionModel::Refresh(refresh_token),
            )
        } else {
            returning(manager, Err(error::ErrorModel::RefreshTokenInvalid))
        },
        (PhaseModel::SavingRenewed { renewed }, EventModel::Saved(Ok(_))) => syncing(
            manager,
            account_id,
            renewed,
            times.later_ms,
        ),
        (PhaseModel::Syncing { cached }, EventModel::Synced) => keeping(
            manager,
            account_id,
            cached,
        ),
        _ => (phase, manager, ActionModel::ReadLiveAuth),
    }
}

/// The life of the access token whose expiry follows from `event`, where one does.
pub open spec fn life_in_play(
    phase: PhaseModel,
    account_id: Seq<char>,
    manager: model::ManagerModel,
    event: EventModel,
    now_ms: i64,
) -> Option<Option<i64>> {
    match (phase, event) {
        (
            PhaseModel::Refreshing { refresh_token, .. },
            EventModel::Refreshed(Ok(tokens)),
        ) => match manager.renewing(account_id, refresh_token, tokens, now_ms).1 {
            Ok(renewal) => if renewal.needs_save {
                None
            } else {
                Some(tokens.expires_in)
            },
            Err(_) => None,
        },
        (PhaseModel::SavingRenewed { renewed }, EventModel::Saved(Ok(_))) => Some(
            renewed.expires_in,
        ),
        _ => None,
    }
}

/// Whether an action that writes the credentials file gives it the time at which
/// the access token was obtained, or `later_ms` where that time cannot be written.
pub open spec fn gives_the_time(phase: PhaseModel, action: ActionModel, later_ms: i64) -> bool {
    match (phase, action) {
        (PhaseModel::Syncing { cached }, ActionModel::SyncLiveAuth(update)) => clock::writes_time(
            update.last_refresh,
            cached.obtained_at_ms,
            later_ms,
        ),
        _ => true,
    }
}

/// The resolution of an access token.
#[derive(Debug)]
pub struct TokenResolution {
    account_id: String,
    phase: ResolutionPhase,
}

impl TokenResolution {
    /// The account whose token is resolved.
    pub closed spec fn account_id(self) -> Seq<char> {
        self.account_id@
    }

    /// What the resolution waits for.
    pub closed spec fn phase(self) -> PhaseModel {
        self.phase@
    }

    /// Begins to resolve an access token of `account_id`. The first thing to do is
    /// to read the credentials file.
    pub fn new(account_id: &str) -> (result: (Self, ResolutionAction))
        ensures
            result.0.account_id() == account_id@,
            result.0.phase() == PhaseModel::ReadingLive,
            result.1@ == ActionModel::ReadLiveAuth,
    {
        (
            TokenResolution {
                account_id: account_id.to_owned(),
                phase: ResolutionPhase::ReadingLive,
            },
            ResolutionAction::ReadLiveAuth,
        )
    }

    /// Takes `event` in at the given times, and says what is to be done next.
    pub fn step_at(
        &mut self,
        manager: &mut CodexOAuthManager,
        event: ResolutionEvent,
        times: StepTimes,
    ) -> (action: ResolutionAction)
        requires
            expected(old(self).phase(), event@),
            times.shown(),
            match life_in_play(
                old(self).phase(),
                old(self).account_id(),
                old(manager)@,
                event@,
                times.now_ms,
            ) {
                Some(expires_in) => clock::expiry_fits(times.later_ms, expires_in),
                None => true,
            },
        ensures
            final(self).account_id() == old(self).account_id(),
            (final(self).phase(), final(manager)@, action@) == next_step(
                old(self).phase(),
                old(self).account_id(),
                old(manager)@,
                event@,
                times,
            ),
            gives_the_time(final(self).phase(), action@, times.later_ms),
    {
        let mut phase = ResolutionPhase::Finished;
        std::mem::swap(&mut phase, &mut self.phase);
        let account_id = self.account_id.as_str();
        let (next, action) = match (phase, event) {
            (_, ResolutionEvent::Saved(Err(error))) => finish(Err(error)),
            (ResolutionPhase::ReadingLive, ResolutionEvent::LiveAuth(live)) => meet_live(
                manager,
                account_id,
                live,
                times.now_ms,
            ),
            (ResolutionPhase::SavingAdopted, ResolutionEvent::Saved(Ok(_))) => use_or_refresh(
                manager,
                account_id,
                times.now_ms,
            ),
            (
                ResolutionPhase::Refreshing { refresh_token, retried },
                ResolutionEvent::Refreshed(Err(error)),
            ) => match error {
                CodexOAuthError::RefreshTokenInvalid => if retried {
                    finish(Err(CodexOAuthError::RefreshTokenInvalid))
                } else {
                    (
                        ResolutionPhase::ReadingLiveAgain { rejected: refresh_token },
                        ResolutionAction::ReadLiveAuth,
                    )
                },
                other => finish(Err(other)),
            },
            (
                ResolutionPhase::Refreshing { refresh_token, retried: _ },
                ResolutionEvent::Refreshed(Ok(tokens)),
            ) => store_tokens(manager, account_id, refresh_token, tokens, times),
            (
                ResolutionPhase::ReadingLiveAgain { rejected },
                ResolutionEvent::LiveAuth(live),
            ) => recover(manager, account_id, rejected, live, times.now_ms),
            (
                ResolutionPhase::SavingRecovered { refresh_token, adopted },
                ResolutionEvent::Saved(Ok(_)),
            ) => if adopted {
                let used = refresh_token.clone();
                (
                    ResolutionPhase::Refreshing { refresh_token, retried: true },
                    ResolutionAction::Refresh(used),
                )
            } else {
                finish(Err(CodexOAuthError::RefreshTokenInvalid))
            },
            (
                ResolutionPhase::SavingRenewed { renewed },
                ResolutionEvent::Saved(Ok(_)),
            ) => sync_live(account_id, renewed, times.later_ms),
            (ResolutionPhase::Syncing { cached }, ResolutionEvent::Synced) => keep_token(
                manager,
                account_id,
                cached,
            ),
            (other, _) => {
                assert(false);
                (other, ResolutionAction::ReadLiveAuth)
            },
        };
        self.phase = next;
        action
    }

    /// Takes `event` in, and says what is to be done next.
    pub fn step(&mut self, manager: &mut CodexOAuthManager, event: ResolutionEvent) -> (action:
        ResolutionAction)
        requires
            expected(old(self).phase(), event@),
            forall|now_ms: i64|
                clock::clock_shows_ms(now_ms) ==> match #[trigger] life_in_play(
                    old(self).phase(),
                    old(self).account_id(),
                    old(manager)@,
                    event@,
                    now_ms,
                ) {
                    Some(expires_in) => clock::expiry_always_fits(expires_in),
                    None => true,
                },
        ensures
            final(self).account_id() == old(self).account_id(),
            exists|times: StepTimes|
                times.shown() && gives_the_time(final(self).phase(), action@, times.later_ms) && (
                    final(self).phase(),
                    final(manager)@,
                    action@,
                ) == #[trigger] next_step(
                    old(self).phase(),
                    old(self).account_id(),
                    old(manager)@,
                    event@,
                    times,
                ),
    {
        let now_ms: i64 = current_time_ms();
        let later_ms: i64 = current_time_ms();
        self.step_at(manager, event, StepTimes { now_ms, later_ms })
    }
}

/// Returns `result`.
fn finish(result: Result<CachedAccessToken, CodexOAuthError>) -> (step: (
    ResolutionPhase,
    ResolutionAction,
))
    ensures
        step.0@ == PhaseModel::Finished,
        step.1@ == ActionModel::Return(error::view_result(result)),
{
    (ResolutionPhase::Finished, ResolutionAction::Return(result))
}

/// Returns the access token that is kept, where it can be used at `now_ms`, and
/// refreshes it otherwise.
fn use_or_refresh(manager: &CodexOAuthManager, account_id: &str, now_ms: i64) -> (step: (
    ResolutionPhase,
    ResolutionAction,
))
    ensures
        (step.0@, manager@, step.1@) == using_or_refreshing(manager@, account_id@, now_ms),
{
    match manager.resolve_valid_cached_token_at(account_id, now_ms) {
        Ok(Some(cached)) => finish(Ok(cached)),
        Ok(None) => match manager.account(account_id) {
            Some(account) => (
                ResolutionPhase::Refreshing {
                    refresh_token: account.refresh_token.clone(),
                    retried: false,
                },
                ResolutionAction::Refresh(account.refresh_token.clone()),
            ),
            None => finish(Err(CodexOAuthError::not_found(account_id))),
        },
        Err(error) => finish(Err(error)),
    }
}

/// Meets the credentials file before a refresh.
fn meet_live(
    manager: &mut CodexOAuthManager,
    account_id: &str,
    live: Option<LiveAuth>,
    now_ms: i64,
) -> (step: (ResolutionPhase, ResolutionAction))
    ensures
        (step.0@, final(manager)@, step.1@) == meeting(
            old(manager)@,
            account_id@,
            text::view_opt(live),
            now_ms,
        ),
{
    match live {
        Some(live) => {
            let outcome = manager.adopt_account_refresh_token_under_lock_at(
                account_id,
                live,
                RefreshTokenAdoptionMode::TimestampChecked,
                now_ms,
            );
            if outcome.state_changed() {
                (ResolutionPhase::SavingAdopted, ResolutionAction::Save)
            } else {
                use_or_refresh(manager, account_id, now_ms)
            }
        },
        None => use_or_refresh(manager, account_id, now_ms),
    }
}

/// Meets the credentials file after the server rejected the refresh token
/// `rejected`.
fn recover(
    manager: &mut CodexOAuthManager,
    account_id: &str,
    rejected: String,
    live: Option<LiveAuth>,
    now_ms: i64,
) -> (step: (ResolutionPhase, ResolutionAction))
    ensures
        (step.0@, final(manager)@, step.1@) == recovering(
            old(manager)@,
            account_id@,
            rejected@,
            text::view_opt(live),
            now_ms,
        ),
{
    match live {
        Some(live) => {
            if same_text(trim(live.refresh_token.as_str()), rejected.as_str()) {
                return finish(Err(CodexOAuthError::RefreshTokenInvalid));
            }
            let refresh_token = live.refresh_token.clone();
            let outcome = manager.adopt_account_refresh_token_under_lock_at(
                account_id,
                live,
                RefreshTokenAdoptionMode::RejectedManagerToken,
                now_ms,
            );
            if outcome.state_changed() {
                (
                    ResolutionPhase::SavingRecovered {
                        refresh_token,
                        adopted: outcome == RefreshTokenAdoptionOutcome::Adopted,
                    },
                    ResolutionAction::Save,
                )
            } else {
                finish(Err(CodexOAuthError::RefreshTokenInvalid))
            }
        },
        None => finish(Err(CodexOAuthError::RefreshTokenInvalid)),
    }
}

/// Stores the tokens of a refresh.
fn store_tokens(
    manager: &mut CodexOAuthManager,
    account_id: &str,
    used: String,
    tokens: OAuthTokenResponse,
    times: StepTimes,
) -> (step: (ResolutionPhase, ResolutionAction))
    requires
        times.shown(),
        match old(manager)@.renewing(account_id@, used@, tokens@, times.now_ms).1 {
            Ok(renewal) => renewal.needs_save || clock::expiry_fits(
                times.later_ms,
                tokens@.expires_in,
            ),
            Err(_) => true,
        },
    ensures
        (step.0@, final(manager)@, step.1@) == storing(
            old(manager)@,
            account_id@,
            used@,
            tokens@,
            times,
        ),
        gives_the_time(step.0@, step.1@, times.later_ms),
{
    match manager.renew_account_at(account_id, used.as_str(), &tokens, times.now_ms) {
        Ok(renewal) => {
            let renewed = RenewedTokens {
                used,
                access_token: tokens.access_token.text().to_owned(),
                expires_in: tokens.expires_in,
                obtained_at_ms: times.now_ms,
                refresh_token: renewal.refresh_token,
                id_token: renewal.id_token,
                chatgpt_account_id: renewal.chatgpt_account_id,
            };
            if renewal.needs_save {
                (ResolutionPhase::SavingRenewed { renewed }, ResolutionAction::Save)
            } else {
                sync_live(account_id, renewed, times.later_ms)
            }
        },
        Err(error) => finish(Err(error)),
    }
}

/// Writes the credentials file after a refresh.
fn sync_live(account_id: &str, renewed: RenewedTokens, later_ms: i64) -> (step: (
    ResolutionPhase,
    ResolutionAction,
))
    requires
        clock::clock_shows_ms(later_ms),
        clock::expiry_fits(later_ms, renewed.expires_in),
    ensures
        step.0@ == (PhaseModel::Syncing { cached: access_token_of(renewed@, later_ms) }),
        step.1@ == ActionModel::SyncLiveAuth(update_of(account_id@, renewed@, later_ms)),
        gives_the_time(step.0@, step.1@, later_ms),
{
    let cached = CachedAccessToken {
        token: renewed.access_token.clone(),
        expires_at_ms: compute_expires_at_ms_from(later_ms, renewed.expires_in),
        obtained_at_ms: renewed.obtained_at_ms,
    };
    let tokens_account_id = native_tokens_account_id(
        as_text(&renewed.chatgpt_account_id),
        account_id,
    ).to_owned();
    let id_token: Option<String> = match &renewed.id_token {
        Some(token) => Some(token.text().to_owned()),
        None => None,
    };
    let update = LiveAuthUpdate {
        account_id: account_id.to_owned(),
        previous_refresh_token: renewed.used,
        tokens_account_id,
        access_token: renewed.access_token,
        id_token,
        refresh_token: renewed.refresh_token,
        last_refresh: last_refresh_text_at(renewed.obtained_at_ms, later_ms),
    };
    (ResolutionPhase::Syncing { cached }, ResolutionAction::SyncLiveAuth(update))
}

/// Keeps the access token and returns it.
fn keep_token(manager: &mut CodexOAuthManager, account_id: &str, cached: CachedAccessToken) -> (
    step: (ResolutionPhase, ResolutionAction))
    ensures
        (step.0@, final(manager)@, step.1@) == keeping(old(manager)@, account_id@, cached@),
{
    match manager.cache_access_token(account_id, cached.clone()) {
        Ok(_) => finish(Ok(cached)),
        Err(error) => finish(Err(error)),
    }
}

} // verus!
