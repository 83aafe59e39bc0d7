//! Handing tokens over to the credentials file, and giving the file up, step by
//! step.
//!
//! Both begin with what the file holds for the account. Where the file may hold
//! tokens that are newer than those that are kept, nothing is done to it.
use crate::account;
use crate::account::CachedAccessToken;
use crate::adoption;
use crate::adoption::{LiveAuth, RefreshTokenAdoptionMode, RefreshTokenAdoptionOutcome};
use crate::clock;
use crate::clock::{current_time_ms, last_refresh_text_at};
use crate::error;
use crate::error::CodexOAuthError;
use crate::manager::CodexOAuthManager;
use crate::model;
use crate::resolution::StepTimes;
use crate::text;
use vstd::prelude::*;
use vstd::string::*;

verus! {

/// All that the credentials file needs.
#[derive(Debug)]
pub struct ManagedTokenBundle {
    pub access_token: String,
    pub id_token: Option<String>,
    pub refresh_token: String,
    /// The workspace.
    pub chatgpt_account_id: Option<String>,
    /// When the access token was obtained.
    pub last_refresh: String,
}

/// The model of [`ManagedTokenBundle`].
pub struct BundleModel {
    pub access_token: Seq<char>,
    pub id_token: Option<Seq<char>>,
    pub refresh_token: Seq<char>,
    pub chatgpt_account_id: Option<Seq<char>>,
    pub last_refresh: Seq<char>,
}

impl View for ManagedTokenBundle {
    type V = BundleModel;

    open spec fn view(&self) -> BundleModel {
        BundleModel {
            access_token: self.access_token@,
            id_token: text::view_opt(self.id_token),
            refresh_token: self.refresh_token@,
            chatgpt_account_id: text::view_opt(self.chatgpt_account_id),
            last_refresh: self.last_refresh@,
        }
    }
}

impl ManagedTokenBundle {
    /// The access token and the ID token.
    pub fn into_token_and_id_token(self) -> (result: (String, Option<String>))
        ensures
            result.0@ == self@.access_token,
            text::view_opt(result.1) == self@.id_token,
    {
        (self.access_token, self.id_token)
    }
}

/// What has happened.
#[derive(Debug)]
pub enum HandoverEvent {
    /// The credentials file was read: what it holds for the account.
    LiveAuth(Option<LiveAuth>),
    /// The accounts were saved, or could not be.
    Saved(Result<(), CodexOAuthError>),
}

/// The model of [`HandoverEvent`].
pub enum HandoverEventModel {
    LiveAuth(Option<adoption::LiveModel>),
    Saved(Result<(), error::ErrorModel>),
}

impl View for HandoverEvent {
    type V = HandoverEventModel;

    open spec fn view(&self) -> HandoverEventModel {
        match self {
            HandoverEvent::LiveAuth(live) => HandoverEventModel::LiveAuth(text::view_opt(*live)),
            HandoverEvent::Saved(result) => HandoverEventModel::Saved(error::view_result(*result)),
        }
    }
}

/// What is to be done next.
#[derive(Debug)]
pub enum HandoverAction<T> {
    /// Read what the credentials file holds for the account.
    ReadLiveAuth,
    /// Save the accounts.
    Save,
    /// Return.
    Return(Result<T, CodexOAuthError>),
}

/// The model of [`HandoverAction`].
pub enum HandoverActionModel<V> {
    ReadLiveAuth,
    Save,
    Return(Result<V, error::ErrorModel>),
}

/// The model of an action of [`BundleAssembly`].
pub open spec fn view_bundle_action(action: HandoverAction<ManagedTokenBundle>) ->
    HandoverActionModel<BundleModel> {
    match action {
        HandoverAction::ReadLiveAuth => HandoverActionModel::ReadLiveAuth,
        HandoverAction::Save => HandoverActionModel::Save,
        HandoverAction::Return(result) => HandoverActionModel::Return(error::view_result(result)),
    }
}

/// The model of an action of [`SwitchAway`].
pub open spec fn view_switch_action(action: HandoverAction<Option<String>>) -> HandoverActionModel<
    Option<Seq<char>>,
> {
    match action {
        HandoverAction::ReadLiveAuth => HandoverActionModel::ReadLiveAuth,
        HandoverAction::Save => HandoverActionModel::Save,
        HandoverAction::Return(Ok(refresh_token)) => HandoverActionModel::Return(
            Ok(text::view_opt(refresh_token)),
        ),
        HandoverAction::Return(Err(error)) => HandoverActionModel::Return(Err(error@)),
    }
}

/// What a handover waits for.
#[derive(Debug)]
pub enum HandoverPhase {
    /// The credentials file is being read.
    ReadingLive,
    /// The accounts are being saved, after the account met the credentials file with
    /// its refresh token `refresh_token`.
    Saving { outcome: RefreshTokenAdoptionOutcome, refresh_token: String },
    /// The handover has returned.
    Finished,
}

/// The model of [`HandoverPhase`].
pub enum HandoverPhaseModel {
    ReadingLive,
    Saving { outcome: RefreshTokenAdoptionOutcome, refresh_token: Seq<char> },
    Finished,
}

impl View for HandoverPhase {
    type V = HandoverPhaseModel;

    open spec fn view(&self) -> HandoverPhaseModel {
        match self {
            HandoverPhase::ReadingLive => HandoverPhaseModel::ReadingLive,
            HandoverPhase::Saving { outcome, refresh_token } => HandoverPhaseModel::Saving {
                outcome: *outcome,
                refresh_token: refresh_token@,
            },
            HandoverPhase::Finished => HandoverPhaseModel::Finished,
        }
    }
}

/// Whether `event` is what a handover in `phase` waits for.
pub open spec fn handover_expected(phase: HandoverPhaseModel, event: HandoverEventModel) -> bool {
    match phase {
        HandoverPhaseModel::ReadingLive => event is LiveAuth,
        HandoverPhaseModel::Saving { .. } => event is Saved,
        HandoverPhaseModel::Finished => false,
    }
}

/// The error for tokens in the credentials file that may be newer or older than
/// those of the account.
pub open spec fn ambiguous_error(account_id: Seq<char>) -> error::ErrorModel {
    error::ErrorModel::TokenFetchFailed(
        "Codex CLI 账号 "@ + account_id
            + " 的磁盘凭据已变化，但无法安全判断 refresh token 新旧；为避免覆盖或删除有效登录，本次操作已取消。请先在认证中心重新登录该账号；若仍失败，请移除后重新登录"@,
    )
}

/// The error for tokens in the credentials file that became newer while those of
/// the account were being prepared.
pub open spec fn mixed_bundle_error(account_id: Seq<char>) -> error::ErrorModel {
    error::ErrorModel::TokenFetchFailed(
        "Codex CLI 账号 "@ + account_id
            + " 的磁盘凭据在准备写入期间已刷新；为避免写入混合 token bundle，本次操作已取消，请重试"@,
    )
}

/// The bundle of an account with the access token `cached`.
pub open spec fn bundle_of(
    account: account::AccountModel,
    cached: account::CachedModel,
    now_ms: i64,
) -> BundleModel {
    BundleModel {
        access_token: cached.token,
        id_token: match account.id_token {
            Some(token) => Some(token.text),
            None => None,
        },
        refresh_token: account.refresh_token,
        chatgpt_account_id: account.effective_workspace(),
        last_refresh: clock::time_text(cached.obtained_at_ms, now_ms),
    }
}

/// The bundle of `account_id` with the access token `cached`, where what became of
/// the tokens in the credentials file allows to overwrite them.
pub open spec fn bundle_after(
    manager: model::ManagerModel,
    account_id: Seq<char>,
    cached: account::CachedModel,
    outcome: RefreshTokenAdoptionOutcome,
    now_ms: i64,
) -> Result<BundleModel, error::ErrorModel> {
    match outcome {
        RefreshTokenAdoptionOutcome::Synchronized { .. }
        | RefreshTokenAdoptionOutcome::ProvablyOlder => bundle_in(
            manager,
            account_id,
            cached,
            now_ms,
        ),
        RefreshTokenAdoptionOutcome::Ambiguous => Err(ambiguous_error(account_id)),
        RefreshTokenAdoptionOutcome::Adopted => Err(mixed_bundle_error(account_id)),
        RefreshTokenAdoptionOutcome::NotManaged => model::not_found(account_id),
    }
}

/// The bundle of `account_id` with the access token `cached`, where the account is
/// there.
pub open spec fn bundle_in(
    manager: model::ManagerModel,
    account_id: Seq<char>,
    cached: account::CachedModel,
    now_ms: i64,
) -> Result<BundleModel, error::ErrorModel> {
    match model::lookup(manager.accounts, account_id) {
        Some(account) => Ok(bundle_of(account, cached, now_ms)),
        None => model::not_found(account_id),
    }
}

/// Whether a bundle that is returned carries the time at which the access token
/// `cached` was obtained, or `now_ms` where that time cannot be written.
pub open spec fn carries_the_time(
    result: Result<BundleModel, error::ErrorModel>,
    cached: account::CachedModel,
    now_ms: i64,
) -> bool {
    match result {
        Ok(bundle) => clock::writes_time(bundle.last_refresh, cached.obtained_at_ms, now_ms),
        Err(_) => true,
    }
}

/// Whether an action carries no bundle, or one with its time.
pub open spec fn action_carries_the_time(
    action: HandoverActionModel<BundleModel>,
    cached: account::CachedModel,
    now_ms: i64,
) -> bool {
    match action {
        HandoverActionModel::Return(result) => carries_the_time(result, cached, now_ms),
        _ => true,
    }
}

/// The refresh token `observed` in the credentials file, where what became of it
/// allows to overwrite or remove the file.
pub open spec fn switch_after(
    account_id: Seq<char>,
    observed: Seq<char>,
    outcome: RefreshTokenAdoptionOutcome,
) -> Result<Option<Seq<char>>, error::ErrorModel> {
    match outcome {
        RefreshTokenAdoptionOutcome::Synchronized { .. }
        | RefreshTokenAdoptionOutcome::Adopted
        | RefreshTokenAdoptionOutcome::ProvablyOlder => Ok(Some(observed)),
        RefreshTokenAdoptionOutcome::Ambiguous => Err(ambiguous_error(account_id)),
        RefreshTokenAdoptionOutcome::NotManaged => model::not_found(account_id),
    }
}

/// A handover, the accounts, and what is to be done next.
pub type HandoverStep<V> = (HandoverPhaseModel, model::ManagerModel, HandoverActionModel<V>);

/// Returning `result`.
pub open spec fn handing_back<V>(
    manager: model::ManagerModel,
    result: Result<V, error::ErrorModel>,
) -> HandoverStep<V> {
    (HandoverPhaseModel::Finished, manager, HandoverActionModel::Return(result))
}

/// What follows from `event` in the assembly of a bundle. One that is not expected
/// leaves everything as it is.
pub open spec fn next_bundle_step(
    phase: HandoverPhaseModel,
    account_id: Seq<char>,
    cached: account::CachedModel,
    manager: model::ManagerModel,
    event: HandoverEventModel,
    times: StepTimes,
) -> HandoverStep<BundleModel> {
    match (phase, event) {
        (HandoverPhaseModel::ReadingLive, HandoverEventModel::LiveAuth(None)) => handing_back(
            manager,
            bundle_in(manager, account_id, cached, times.later_ms),
        ),
        (HandoverPhaseModel::ReadingLive, HandoverEventModel::LiveAuth(Some(live))) => {
            let (after, outcome) = manager.adopting(
                account_id,
                live,
                RefreshTokenAdoptionMode::TimestampChecked,
                times.now_ms,
            );
            if outcome.changed() {
                (
                    HandoverPhaseModel::Saving { outcome, refresh_token: live.refresh_token },
                    after,
                    HandoverActionModel::Save,
                )
            } else {
                handing_back(
                    after,
                    bundle_after(after, account_id, cached, outcome, times.later_ms),
                )
            }
        },
        (
            HandoverPhaseModel::Saving { outcome, .. },
            HandoverEventModel::Saved(Ok(_)),
        ) => handing_back(
            manager,
            bundle_after(manager, account_id, cached, outcome, times.later_ms),
        ),
        (_, HandoverEventModel::Saved(Err(error))) => handing_back(manager, Err(error)),
        _ => (phase, manager, HandoverActionModel::ReadLiveAuth),
    }
}

/// What follows from `event` in the giving up of the credentials file. One that is
/// not expected leaves everything as it is.
pub open spec fn next_switch_step(
    phase: HandoverPhaseModel,
    account_id: Seq<char>,
    manager: model::ManagerModel,
    event: HandoverEventModel,
    now_ms: i64,
) -> HandoverStep<Option<Seq<char>>> {
    match (phase, event) {
        (HandoverPhaseModel::ReadingLive, HandoverEventModel::LiveAuth(None)) => handing_back(
            manager,
            Ok(None),
        ),
        (HandoverPhaseModel::ReadingLive, HandoverEventModel::LiveAuth(Some(live))) => {
            let (after, outcome) = manager.adopting(
                account_id,
                live,
                RefreshTokenAdoptionMode::TimestampChecked,
                now_ms,
            );
            if outcome.changed() {
                (
                    HandoverPhaseModel::Saving { outcome, refresh_token: live.refresh_token },
                    after,
                    HandoverActionModel::Save,
                )
            } else {
                handing_back(after, switch_after(account_id, live.refresh_token, outcome))
            }
        },
        (
            HandoverPhaseModel::Saving { outcome, refresh_token },
            HandoverEventModel::Saved(Ok(_)),
        ) => handing_back(manager, switch_after(account_id, refresh_token, outcome)),
        (_, HandoverEventModel::Saved(Err(error))) => handing_back(manager, Err(error)),
        _ => (phase, manager, HandoverActionModel::ReadLiveAuth),
    }
}

/// The error for tokens in the credentials file that may be newer or older than
/// those of the account.
pub fn ambiguous_live_refresh_error(account_id: &str) -> (result: CodexOAuthError)
    ensures
        result@ == ambiguous_error(account_id@),
{
    CodexOAuthError::TokenFetchFailed(
        "Codex CLI 账号 ".to_owned().concat(account_id).concat(
            " 的磁盘凭据已变化，但无法安全判断 refresh token 新旧；为避免覆盖或删除有效登录，本次操作已取消。请先在认证中心重新登录该账号；若仍失败，请移除后重新登录",
        ),
    )
}

/// The error for tokens in the credentials file that became newer while those of
/// the account were being prepared.
fn mixed_bundle(account_id: &str) -> (result: CodexOAuthError)
    ensures
        result@ == mixed_bundle_error(account_id@),
{
    CodexOAuthError::TokenFetchFailed(
        "Codex CLI 账号 ".to_owned().concat(account_id).concat(
            " 的磁盘凭据在准备写入期间已刷新；为避免写入混合 token bundle，本次操作已取消，请重试",
        ),
    )
}

/// The bundle of `account_id` with the access token `cached`, where the account is
/// there.
fn read_bundle(
    manager: &CodexOAuthManager,
    account_id: &str,
    cached: &CachedAccessToken,
    now_ms: i64,
) -> (result: Result<ManagedTokenBundle, CodexOAuthError>)
    requires
        clock::clock_shows_ms(now_ms),
    ensures
        error::view_result(result) == bundle_in(manager@, account_id@, cached@, now_ms),
        carries_the_time(error::view_result(result), cached@, now_ms),
{
    match manager.account(account_id) {
        Some(account) => Ok(
            ManagedTokenBundle {
                access_token: cached.token.clone(),
                id_token: match &account.id_token {
                    Some(token) => Some(token.text().to_owned()),
                    None => None,
                },
                refresh_token: account.refresh_token.clone(),
                chatgpt_account_id: account.effective_chatgpt_account_id(),
                last_refresh: last_refresh_text_at(cached.obtained_at_ms, now_ms),
            },
        ),
        None => Err(CodexOAuthError::not_found(account_id)),
    }
}

/// The bundle of `account_id` with the access token `cached`, where what became of
/// the tokens in the credentials file allows to overwrite them.
fn conclude_bundle(
    manager: &CodexOAuthManager,
    account_id: &str,
    cached: &CachedAccessToken,
    outcome: RefreshTokenAdoptionOutcome,
    now_ms: i64,
) -> (result: Result<ManagedTokenBundle, CodexOAuthError>)
    requires
        clock::clock_shows_ms(now_ms),
    ensures
        error::view_result(result) == bundle_after(manager@, account_id@, cached@, outcome, now_ms),
        carries_the_time(error::view_result(result), cached@, now_ms),
{
    match outcome {
        RefreshTokenAdoptionOutcome::Synchronized { .. }
        | RefreshTokenAdoptionOutcome::ProvablyOlder => read_bundle(
            manager,
            account_id,
            cached,
            now_ms,
        ),
        RefreshTokenAdoptionOutcome::Ambiguous => Err(ambiguous_live_refresh_error(account_id)),
        RefreshTokenAdoptionOutcome::Adopted => Err(mixed_bundle(account_id)),
        RefreshTokenAdoptionOutcome::NotManaged => Err(CodexOAuthError::not_found(account_id)),
    }
}

/// The refresh token `observed` in the credentials file, where what became of it
/// allows to overwrite or remove the file.
fn conclude_switch(
    account_id: &str,
    observed: String,
    outcome: RefreshTokenAdoptionOutcome,
) -> (action: HandoverAction<Option<String>>)
    ensures
        view_switch_action(action) == HandoverActionModel::Return(
            switch_after(account_id@, observed@, outcome),
        ),
{
    match outcome {
        RefreshTokenAdoptionOutcome::Synchronized { .. }
        | RefreshTokenAdoptionOutcome::Adopted
        | RefreshTokenAdoptionOutcome::ProvablyOlder => HandoverAction::Return(Ok(Some(observed))),
        RefreshTokenAdoptionOutcome::Ambiguous => HandoverAction::Return(
            Err(ambiguous_live_refresh_error(account_id)),
        ),
        RefreshTokenAdoptionOutcome::NotManaged => HandoverAction::Return(
            Err(CodexOAuthError::not_found(account_id)),
        ),
    }
}

/// The assembly of all that the credentials file needs, with an access token that
/// was resolved before.
///
/// The file is about to be overwritten. It is read once more, so that tokens in it
/// that may be newer are never hidden by an access token that is still valid.
#[derive(Debug)]
pub struct BundleAssembly {
    account_id: String,
    cached: CachedAccessToken,
    phase: HandoverPhase,
}

impl BundleAssembly {
    /// The account whose tokens are handed over.
    pub closed spec fn account_id(self) -> Seq<char> {
        self.account_id@
    }

    /// The access token that is handed over.
    pub closed spec fn cached(self) -> account::CachedModel {
        self.cached@
    }

    /// What the assembly waits for.
    pub closed spec fn phase(self) -> HandoverPhaseModel {
        self.phase@
    }

    /// Begins to assemble the bundle of `account_id` with the access token `cached`.
    /// The first thing to do is to read the credentials file.
    pub fn new(account_id: &str, cached: CachedAccessToken) -> (result: (
        Self,
        HandoverAction<ManagedTokenBundle>,
    ))
        ensures
            result.0.account_id() == account_id@,
            result.0.cached() == cached@,
            result.0.phase() == HandoverPhaseModel::ReadingLive,
            view_bundle_action(result.1) == HandoverActionModel::<BundleModel>::ReadLiveAuth,
    {
        (
            BundleAssembly {
                account_id: account_id.to_owned(),
                cached,
                phase: HandoverPhase::ReadingLive,
            },
            HandoverAction::ReadLiveAuth,
        )
    }

    /// Takes `event` in at the given times, and says what is to be done next.
    pub fn step_at(
        &mut self,
        manager: &mut CodexOAuthManager,
        event: HandoverEvent,
        times: StepTimes,
    ) -> (action: HandoverAction<ManagedTokenBundle>)
        requires
            handover_expected(old(self).phase(), event@),
            times.shown(),
        ensures
            final(self).account_id() == old(self).account_id(),
            final(self).cached() == old(self).cached(),
            (final(self).phase(), final(manager)@, view_bundle_action(action)) == next_bundle_step(
                old(self).phase(),
                old(self).account_id(),
                old(self).cached(),
                old(manager)@,
                event@,
                times,
            ),
            action_carries_the_time(
                view_bundle_action(action),
                old(self).cached(),
                times.later_ms,
            ),
    {
        let mut phase = HandoverPhase::Finished;
        std::mem::swap(&mut phase, &mut self.phase);
        let account_id = self.account_id.as_str();
        match (phase, event) {
            (HandoverPhase::ReadingLive, HandoverEvent::LiveAuth(None)) => HandoverAction::Return(
                read_bundle(manager, account_id, &self.cached, times.later_ms),
            ),
            (HandoverPhase::ReadingLive, HandoverEvent::LiveAuth(Some(live))) => {
                let refresh_token = live.refresh_token.clone();
                let outcome = manager.adopt_account_refresh_token_under_lock_at(
                    account_id,
                    live,
                    RefreshTokenAdoptionMode::TimestampChecked,
                    times.now_ms,
                );
                if outcome.state_changed() {
                    self.phase = HandoverPhase::Saving { outcome, refresh_token };
                    HandoverAction::Save
                } else {
                    HandoverAction::Return(
                        conclude_bundle(
                            manager,
                            account_id,
                            &self.cached,
                            outcome,
                            times.later_ms,
                        ),
                    )
                }
            },
            (
                HandoverPhase::Saving { outcome, refresh_token: _ },
                HandoverEvent::Saved(Ok(_)),
            ) => HandoverAction::Return(
                conclude_bundle(manager, account_id, &self.cached, outcome, times.later_ms),
            ),
            (_, HandoverEvent::Saved(Err(error))) => HandoverAction::Return(Err(error)),
            (other, _) => {
                assert(false);
                self.phase = other;
                HandoverAction::ReadLiveAuth
            },
        }
    }

    /// Takes `event` in, and says what is to be done next.
    pub fn step(&mut self, manager: &mut CodexOAuthManager, event: HandoverEvent) -> (action:
        HandoverAction<ManagedTokenBundle>)
        requires
            handover_expected(old(self).phase(), event@),
        ensures
            final(self).account_id() == old(self).account_id(),
            final(self).cached() == old(self).cached(),
            exists|times: StepTimes|
                times.shown() && action_carries_the_time(
                    view_bundle_action(action),
                    old(self).cached(),
                    times.later_ms,
                ) && (
                    final(self).phase(),
                    final(manager)@,
                    view_bundle_action(action),
                ) == #[trigger] next_bundle_step(
                    old(self).phase(),
                    old(self).account_id(),
                    old(self).cached(),
                    old(manager)@,
                    event@,
                    times,
                ),
    {
        let now_ms: i64 = current_time_ms();
        let later_ms: i64 = current_time_ms();
        self.step_at(manager, event, StepTimes { now_ms, later_ms })
    }
}

/// The giving up of the credentials file, before it is overwritten or removed for
/// the sake of another account.
///
/// It returns the refresh token that the file holds. The file has to be compared
/// with it once more right before it is written.
#[derive(Debug)]
pub struct SwitchAway {
    account_id: String,
    phase: HandoverPhase,
}

impl SwitchAway {
    /// The account that is switched away from.
    pub closed spec fn account_id(self) -> Seq<char> {
        self.account_id@
    }

    /// What the giving up waits for.
    pub closed spec fn phase(self) -> HandoverPhaseModel {
        self.phase@
    }

    /// Begins to give up the credentials file of `account_id`. The first thing to do
    /// is to read it.
    pub fn new(account_id: &str) -> (result: (Self, HandoverAction<Option<String>>))
        ensures
            result.0.account_id() == account_id@,
            result.0.phase() == HandoverPhaseModel::ReadingLive,
            view_switch_action(result.1) == HandoverActionModel::<Option<Seq<char>>>::ReadLiveAuth,
    {
        (
            SwitchAway { account_id: account_id.to_owned(), phase: HandoverPhase::ReadingLive },
            HandoverAction::ReadLiveAuth,
        )
    }

    /// Takes `event` in at `now_ms`, and says what is to be done next.
    pub fn step_at(
        &mut self,
        manager: &mut CodexOAuthManager,
        event: HandoverEvent,
        now_ms: i64,
    ) -> (action: HandoverAction<Option<String>>)
        requires
            handover_expected(old(self).phase(), event@),
        ensures
            final(self).account_id() == old(self).account_id(),
            (final(self).phase(), final(manager)@, view_switch_action(action)) == next_switch_step(
                old(self).phase(),
                old(self).account_id(),
                old(manager)@,
                event@,
                now_ms,
            ),
    {
        let mut phase = HandoverPhase::Finished;
        std::mem::swap(&mut phase, &mut self.phase);
        let account_id = self.account_id.as_str();
        match (phase, event) {
            (HandoverPhase::ReadingLive, HandoverEvent::LiveAuth(None)) => HandoverAction::Return(
                Ok(None),
            ),
            (HandoverPhase::ReadingLive, HandoverEvent::LiveAuth(Some(live))) => {
                let refresh_token = live.refresh_token.clone();
                let outcome = manager.adopt_account_refresh_token_under_lock_at(
                    account_id,
                    live,
                    RefreshTokenAdoptionMode::TimestampChecked,
                    now_ms,
                );
                if outcome.state_changed() {
                    self.phase = HandoverPhase::Saving { outcome, refresh_token };
                    HandoverAction::Save
                } else {
                    conclude_switch(account_id, refresh_token, outcome)
                }
            },
            (
                HandoverPhase::Saving { outcome, refresh_token },
                HandoverEvent::Saved(Ok(_)),
            ) => conclude_switch(account_id, refresh_token, outcome),
            (_, HandoverEvent::Saved(Err(error))) => HandoverAction::Return(Err(error)),
            (other, _) => {
                assert(false);
                self.phase = other;
                HandoverAction::ReadLiveAuth
            },
        }
    }

    /// Takes `event` in, and says what is to be done next.
    pub fn step(&mut self, manager: &mut CodexOAuthManager, event: HandoverEvent) -> (action:
        HandoverAction<Option<String>>)
        requires
            handover_expected(old(self).phase(), event@),
        ensures
            final(self).account_id() == old(self).account_id(),
            exists|now_ms: i64|
                clock::clock_shows_ms(now_ms) && (
                    final(self).phase(),
                    final(manager)@,
                    view_switch_action(action),
                ) == #[trigger] next_switch_step(
                    old(self).phase(),
                    old(self).account_id(),
                    old(manager)@,
                    event@,
                    now_ms,
                ),
    {
        let now_ms: i64 = current_time_ms();
        self.step_at(manager, event, now_ms)
    }
}

} // verus!
