//! Completing a login, step by step.
//!
//! The caller performs each action and hands the event back.
use crate::account;
use crate::account::{GitHubAccount, OAuthTokenResponse};
use crate::clock;
use crate::clock::{current_time_ms, current_time_secs};
use crate::error;
use crate::error::CodexOAuthError;
use crate::exchange;
use crate::exchange::{
    check_exchange_reply, check_poll_reply, code_exchange_request, poll_request,
};
use crate::manager::CodexOAuthManager;
use crate::model;
use crate::model::LoginTimes;
use vstd::prelude::*;

verus! {

/// A reply of the authorization server.
#[derive(Debug)]
pub struct HttpReply {
    pub status: u16,
    /// The status with its reason.
    pub status_text: String,
    pub body: String,
}

/// The model of [`HttpReply`].
pub struct ReplyModel {
    pub status: u16,
    pub status_text: Seq<char>,
    pub body: Seq<char>,
}

impl View for HttpReply {
    type V = ReplyModel;

    open spec fn view(&self) -> ReplyModel {
        ReplyModel {
            status: self.status,
            status_text: self.status_text@,
            body: self.body@,
        }
    }
}

/// What the server sends when the user has agreed.
#[derive(Debug)]
pub struct DevicePollSuccess {
    pub authorization_code: String,
    pub code_verifier: String,
}

/// The model of [`DevicePollSuccess`].
pub struct GrantModel {
    pub authorization_code: Seq<char>,
    pub code_verifier: Seq<char>,
}

impl View for DevicePollSuccess {
    type V = GrantModel;

    open spec fn view(&self) -> GrantModel {
        GrantModel {
            authorization_code: self.authorization_code@,
            code_verifier: self.code_verifier@,
        }
    }
}

/// What a login waits for.
#[derive(Debug)]
pub enum LoginPhase {
    /// The device code is being polled.
    Polling,
    /// The reply to the poll is being read.
    ReadingGrant,
    /// The code is being exchanged for tokens.
    Exchanging,
    /// The reply to the exchange is being read.
    ReadingTokens,
    /// The accounts are being saved.
    Saving { account: GitHubAccount },
    /// The login has returned.
    Finished,
}

/// The model of [`LoginPhase`].
pub enum LoginPhaseModel {
    Polling,
    ReadingGrant,
    Exchanging,
    ReadingTokens,
    Saving { account: account::SummaryModel },
    Finished,
}

impl View for LoginPhase {
    type V = LoginPhaseModel;

    open spec fn view(&self) -> LoginPhaseModel {
        match self {
            LoginPhase::Polling => LoginPhaseModel::Polling,
            LoginPhase::ReadingGrant => LoginPhaseModel::ReadingGrant,
            LoginPhase::Exchanging => LoginPhaseModel::Exchanging,
            LoginPhase::ReadingTokens => LoginPhaseModel::ReadingTokens,
            LoginPhase::Saving { account } => LoginPhaseModel::Saving { account: account@ },
            LoginPhase::Finished => LoginPhaseModel::Finished,
        }
    }
}

/// What has happened.
#[derive(Debug)]
pub enum LoginEvent {
    /// The server has replied to a request, or could not be reached.
    Replied(Result<HttpReply, CodexOAuthError>),
    /// The reply to the poll was read, or could not be.
    GrantRead(Result<DevicePollSuccess, CodexOAuthError>),
    /// The reply to the exchange was read, or could not be.
    TokensRead(Result<OAuthTokenResponse, CodexOAuthError>),
    /// The accounts were saved, or could not be.
    Saved(Result<(), CodexOAuthError>),
}

/// The model of [`LoginEvent`].
pub enum LoginEventModel {
    Replied(Result<ReplyModel, error::ErrorModel>),
    GrantRead(Result<GrantModel, error::ErrorModel>),
    TokensRead(Result<account::TokensModel, error::ErrorModel>),
    Saved(Result<(), error::ErrorModel>),
}

impl View for LoginEvent {
    type V = LoginEventModel;

    open spec fn view(&self) -> LoginEventModel {
        match self {
            LoginEvent::Replied(result) => LoginEventModel::Replied(error::view_result(*result)),
            LoginEvent::GrantRead(result) => LoginEventModel::GrantRead(
                error::view_result(*result),
            ),
            LoginEvent::TokensRead(result) => LoginEventModel::TokensRead(
                error::view_result(*result),
            ),
            LoginEvent::Saved(result) => LoginEventModel::Saved(error::view_result(*result)),
        }
    }
}

/// What is to be done next.
#[derive(Debug)]
pub enum LoginAction {
    /// Poll the device code with these fields.
    Poll(Vec<(String, String)>),
    /// Read the reply to the poll.
    ReadGrant,
    /// Exchange the code for tokens with these fields.
    Exchange(Vec<(String, String)>),
    /// Read the reply to the exchange.
    ReadTokens,
    /// Save the accounts.
    Save,
    /// Return.
    Return(Result<GitHubAccount, CodexOAuthError>),
}

/// The model of [`LoginAction`].
pub enum LoginActionModel {
    Poll(Seq<(Seq<char>, Seq<char>)>),
    ReadGrant,
    Exchange(Seq<(Seq<char>, Seq<char>)>),
    ReadTokens,
    Save,
    Return(Result<account::SummaryModel, error::ErrorModel>),
}

impl View for LoginAction {
    type V = LoginActionModel;

    open spec fn view(&self) -> LoginActionModel {
        match self {
            LoginAction::Poll(pairs) => LoginActionModel::Poll(exchange::fields(pairs@)),
            LoginAction::ReadGrant => LoginActionModel::ReadGrant,
            LoginAction::Exchange(pairs) => LoginActionModel::Exchange(exchange::fields(pairs@)),
            LoginAction::ReadTokens => LoginActionModel::ReadTokens,
            LoginAction::Save => LoginActionModel::Save,
            LoginAction::Return(result) => LoginActionModel::Return(error::view_result(*result)),
        }
    }
}

/// Whether `event` is what a login in `phase` waits for.
pub open spec fn login_expected(phase: LoginPhaseModel, event: LoginEventModel) -> bool {
    match phase {
        LoginPhaseModel::Polling => event is Replied,
        LoginPhaseModel::ReadingGrant => event is GrantRead,
        LoginPhaseModel::Exchanging => event is Replied,
        LoginPhaseModel::ReadingTokens => event is TokensRead,
        LoginPhaseModel::Saving { .. } => event is Saved,
        LoginPhaseModel::Finished => false,
    }
}

/// A login, the accounts, and what is to be done next.
pub type LoginStep = (LoginPhaseModel, model::ManagerModel, LoginActionModel);

/// Returning `error`.
pub open spec fn failing(manager: model::ManagerModel, error: error::ErrorModel) -> LoginStep {
    (LoginPhaseModel::Finished, manager, LoginActionModel::Return(Err(error)))
}

/// Beginning to poll the login `device_code` at `now_ms`.
pub open spec fn first_login_step(
    device_code: Seq<char>,
    manager: model::ManagerModel,
    now_ms: i64,
) -> LoginStep {
    match manager.polling(device_code, now_ms) {
        (after, Ok(user_code)) => (
            LoginPhaseModel::Polling,
            after,
            LoginActionModel::Poll(
                seq![("device_auth_id"@, device_code), ("user_code"@, user_code)],
            ),
        ),
        (after, Err(error)) => failing(after, error),
    }
}

/// The fields of the request that exchanges `grant` for tokens.
pub open spec fn exchange_fields(grant: GrantModel) -> Seq<(Seq<char>, Seq<char>)> {
    seq![
        ("grant_type"@, "authorization_code"@),
        ("code"@, grant.authorization_code),
        ("redirect_uri"@, exchange::DEVICE_REDIRECT_URI@),
        ("client_id"@, exchange::CODEX_CLIENT_ID@),
        ("code_verifier"@, grant.code_verifier),
    ]
}

/// What follows from `event`. One that is not expected leaves everything as it is.
pub open spec fn next_login_step(
    phase: LoginPhaseModel,
    device_code: Seq<char>,
    manager: model::ManagerModel,
    event: LoginEventModel,
    times: LoginTimes,
) -> LoginStep {
    match (phase, event) {
        (_, LoginEventModel::Replied(Err(error))) => failing(manager, error),
        (_, LoginEventModel::GrantRead(Err(error))) => failing(manager, error),
        (_, LoginEventModel::TokensRead(Err(error))) => failing(manager, error),
        (_, LoginEventModel::Saved(Err(error))) => failing(manager, error),
        (LoginPhaseModel::Polling, LoginEventModel::Replied(Ok(reply))) => {
            match exchange::poll_reply(reply.status, reply.status_text, reply.body) {
                Ok(_) => (LoginPhaseModel::ReadingGrant, manager, LoginActionModel::ReadGrant),
                Err(error) => failing(manager, error),
            }
        },
        (LoginPhaseModel::ReadingGrant, LoginEventModel::GrantRead(Ok(grant))) => (
            LoginPhaseModel::Exchanging,
            manager,
            LoginActionModel::Exchange(exchange_fields(grant)),
        ),
        (LoginPhaseModel::Exchanging, LoginEventModel::Replied(Ok(reply))) => {
            match exchange::exchange_reply(reply.status, reply.status_text, reply.body) {
                Ok(_) => (LoginPhaseModel::ReadingTokens, manager, LoginActionModel::ReadTokens),
                Err(error) => failing(manager, error),
            }
        },
        (LoginPhaseModel::ReadingTokens, LoginEventModel::TokensRead(Ok(tokens))) => {
            match manager.logging_in(device_code, tokens, times) {
                (after, Ok(account)) => (
                    LoginPhaseModel::Saving { account },
                    after,
                    LoginActionModel::Save,
                ),
                (after, Err(error)) => failing(after, error),
            }
        },
        (LoginPhaseModel::Saving { account }, LoginEventModel::Saved(Ok(_))) => (
            LoginPhaseModel::Finished,
            manager,
            LoginActionModel::Return(Ok(account)),
        ),
        _ => (phase, manager, LoginActionModel::ReadGrant),
    }
}

/// The life of the access token whose expiry follows from `event`, where one does.
pub open spec fn login_life(event: LoginEventModel) -> Option<Option<i64>> {
    match event {
        LoginEventModel::TokensRead(Ok(tokens)) => if tokens.refresh_token is Some
            && tokens.identified() {
            Some(tokens.expires_in)
        } else {
            None
        },
        _ => None,
    }
}

/// The completion of a login.
#[derive(Debug)]
pub struct DeviceLogin {
    device_code: String,
    phase: LoginPhase,
}

impl DeviceLogin {
    /// The login that is completed.
    pub closed spec fn device_code(self) -> Seq<char> {
        self.device_code@
    }

    /// What the completion waits for.
    pub closed spec fn phase(self) -> LoginPhaseModel {
        self.phase@
    }

    /// Begins to complete the login `device_code` at `now_ms`.
    pub fn begin_at(manager: &mut CodexOAuthManager, device_code: &str, now_ms: i64) -> (result: (
        Self,
        LoginAction,
    ))
        ensures
            result.0.device_code() == device_code@,
            (result.0.phase(), final(manager)@, result.1@) == first_login_step(
                device_code@,
                old(manager)@,
                now_ms,
            ),
    {
        let (phase, action) = match manager.begin_poll_at(device_code, now_ms) {
            Ok(user_code) => (
                LoginPhase::Polling,
                LoginAction::Poll(poll_request(device_code, user_code.as_str())),
            ),
            Err(error) => fail(error),
        };
        (DeviceLogin { device_code: device_code.to_owned(), phase }, action)
    }

    /// Begins to complete the login `device_code`.
    pub fn begin(manager: &mut CodexOAuthManager, device_code: &str) -> (result: (
        Self,
        LoginAction,
    ))
        ensures
            result.0.device_code() == device_code@,
            exists|now_ms: i64|
                clock::clock_shows_ms(now_ms) && (result.0.phase(), final(manager)@, result.1@)
                    == #[trigger] first_login_step(device_code@, old(manager)@, now_ms),
    {
        let now_ms: i64 = current_time_ms();
        Self::begin_at(manager, device_code, now_ms)
    }

    /// Takes `event` in at the given times, and says what is to be done next.
    pub fn step_at(
        &mut self,
        manager: &mut CodexOAuthManager,
        event: LoginEvent,
        times: LoginTimes,
    ) -> (action: LoginAction)
        requires
            login_expected(old(self).phase(), event@),
            match login_life(event@) {
                Some(expires_in) => clock::expiry_fits(times.life_from_ms, expires_in),
                None => true,
            },
        ensures
            final(self).device_code() == old(self).device_code(),
            (final(self).phase(), final(manager)@, action@) == next_login_step(
                old(self).phase(),
                old(self).device_code(),
                old(manager)@,
                event@,
                times,
            ),
    {
        let mut phase = LoginPhase::Finished;
        std::mem::swap(&mut phase, &mut self.phase);
        let device_code = self.device_code.as_str();
        let (next, action) = match (phase, event) {
            (_, LoginEvent::Replied(Err(error))) => fail(error),
            (_, LoginEvent::GrantRead(Err(error))) => fail(error),
            (_, LoginEvent::TokensRead(Err(error))) => fail(error),
            (_, LoginEvent::Saved(Err(error))) => fail(error),
            (LoginPhase::Polling, LoginEvent::Replied(Ok(reply))) => match check_poll_reply(
                reply.status,
                reply.status_text.as_str(),
                reply.body.as_str(),
            ) {
                Ok(_) => (LoginPhase::ReadingGrant, LoginAction::ReadGrant),
                Err(error) => fail(error),
            },
            (LoginPhase::ReadingGrant, LoginEvent::GrantRead(Ok(grant))) => (
                LoginPhase::Exchanging,
                LoginAction::Exchange(
                    code_exchange_request(
                        grant.authorization_code.as_str(),
                        grant.code_verifier.as_str(),
                    ),
                ),
            ),
            (LoginPhase::Exchanging, LoginEvent::Replied(Ok(reply))) => match check_exchange_reply(
                reply.status,
                reply.status_text.as_str(),
                reply.body.as_str(),
            ) {
                Ok(_) => (LoginPhase::ReadingTokens, LoginAction::ReadTokens),
                Err(error) => fail(error),
            },
            (LoginPhase::ReadingTokens, LoginEvent::TokensRead(Ok(tokens))) => {
                match manager.poll_for_token_at(device_code, tokens, times) {
                    Ok(account) => (LoginPhase::Saving { account }, LoginAction::Save),
                    Err(error) => fail(error),
                }
            },
            (LoginPhase::Saving { account }, LoginEvent::Saved(Ok(_))) => (
                LoginPhase::Finished,
                LoginAction::Return(Ok(account)),
            ),
            (other, _) => {
                assert(false);
                (other, LoginAction::ReadGrant)
            },
        };
        self.phase = next;
        action
    }

    /// Takes `event` in, and says what is to be done next.
    pub fn step(&mut self, manager: &mut CodexOAuthManager, event: LoginEvent) -> (action:
        LoginAction)
        requires
            login_expected(old(self).phase(), event@),
            match login_life(event@) {
                Some(expires_in) => clock::expiry_always_fits(expires_in),
                None => true,
            },
        ensures
            final(self).device_code() == old(self).device_code(),
            exists|times: LoginTimes|
                times.shown() && (final(self).phase(), final(manager)@, action@)
                    == #[trigger] next_login_step(
                    old(self).phase(),
                    old(self).device_code(),
                    old(manager)@,
                    event@,
                    times,
                ),
    {
        let times = LoginTimes {
            obtained_at_ms: current_time_ms(),
            life_from_ms: current_time_ms(),
            authenticated_at: current_time_secs(),
            token_updated_at_ms: current_time_ms(),
        };
        assert(match login_life(event@) {
            Some(expires_in) => clock::expiry_fits(times.life_from_ms, expires_in),
            None => true,
        });
        self.step_at(manager, event, times)
    }
}

/// Returns `error`.
fn fail(error: CodexOAuthError) -> (step: (LoginPhase, LoginAction))
    ensures
        step.0@ == LoginPhaseModel::Finished,
        step.1@ == LoginActionModel::Return(Err::<account::SummaryModel, _>(error@)),
{
    (LoginPhase::Finished, LoginAction::Return(Err(error)))
}

} // verus!
