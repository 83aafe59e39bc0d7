//! The completion of logins.
use crate::account;
use crate::error;
use crate::laws::accounts;
use crate::login;
use crate::model;
use crate::model::LoginTimes;
use vstd::prelude::*;

verus! {

/// Whether `event` is an outcome of `action`.
pub open spec fn answers(action: login::LoginActionModel, event: login::LoginEventModel) -> bool {
    match action {
        login::LoginActionModel::Poll(_) => event is Replied,
        login::LoginActionModel::ReadGrant => event is GrantRead,
        login::LoginActionModel::Exchange(_) => event is Replied,
        login::LoginActionModel::ReadTokens => event is TokensRead,
        login::LoginActionModel::Save => event is Saved,
        login::LoginActionModel::Return(_) => false,
    }
}

/// How many steps a login can still take at most.
pub open spec fn steps_left(phase: login::LoginPhaseModel) -> nat {
    match phase {
        login::LoginPhaseModel::Polling => 5,
        login::LoginPhaseModel::ReadingGrant => 4,
        login::LoginPhaseModel::Exchanging => 3,
        login::LoginPhaseModel::ReadingTokens => 2,
        login::LoginPhaseModel::Saving { .. } => 1,
        login::LoginPhaseModel::Finished => 0,
    }
}

/// A login can take in whatever comes of the action that it asks for, from its
/// beginning on.
pub proof fn a_login_can_take_its_first_event_in(
    device_code: Seq<char>,
    manager: model::ManagerModel,
    now_ms: i64,
)
    ensures
        ({
            let (phase, after, action) = login::first_login_step(device_code, manager, now_ms);
            &&& phase is Finished <==> action is Return
            &&& forall|answer: login::LoginEventModel| #[trigger]
                login::login_expected(phase, answer) <==> answers(action, answer)
        }),
{
}

/// A login can take in whatever comes of the action that it asks for, and every step
/// brings it nearer to its end, where it returns.
pub proof fn a_login_comes_to_its_end(
    phase: login::LoginPhaseModel,
    device_code: Seq<char>,
    manager: model::ManagerModel,
    event: login::LoginEventModel,
    times: LoginTimes,
)
    requires
        login::login_expected(phase, event),
    ensures
        ({
            let (next, after, action) = login::next_login_step(
                phase,
                device_code,
                manager,
                event,
                times,
            );
            &&& steps_left(next) < steps_left(phase)
            &&& next is Finished <==> action is Return
            &&& forall|answer: login::LoginEventModel| #[trigger]
                login::login_expected(next, answer) <==> answers(action, answer)
        }),
{
}

/// Nothing is kept of a login before its tokens are there, and what is kept then is
/// its account, which is saved next.
pub proof fn a_login_is_kept_as_a_whole(
    phase: login::LoginPhaseModel,
    device_code: Seq<char>,
    manager: model::ManagerModel,
    event: login::LoginEventModel,
    times: LoginTimes,
)
    requires
        login::login_expected(phase, event),
    ensures
        match login::next_login_step(phase, device_code, manager, event, times) {
            (login::LoginPhaseModel::Saving { account }, after, action) => {
                &&& phase is ReadingTokens
                &&& action is Save
                &&& after.has(account.id)
                &&& after.accounts[account.id].summary() == account
                &&& model::lookup(after.access_tokens, account.id) is Some
                &&& model::lookup(after.pending_device_codes, device_code) is None
            },
            (next, after, action) => after == manager,
        },
{
}

/// The completion of a login keeps the authentication center sound.
pub proof fn a_login_stays_sound(
    phase: login::LoginPhaseModel,
    device_code: Seq<char>,
    manager: model::ManagerModel,
    event: login::LoginEventModel,
    times: LoginTimes,
)
    requires
        login::login_expected(phase, event),
        accounts::sound(manager),
    ensures
        accounts::sound(login::next_login_step(phase, device_code, manager, event, times).1),
{
    match event {
        login::LoginEventModel::TokensRead(Ok(tokens)) => {
            accounts::completing_a_login_stays_sound(manager, device_code, tokens, times);
        },
        _ => {},
    }
}

/// A login begins by polling with its device code and its user code, as long as it
/// waits; otherwise it returns why it does not.
pub proof fn a_login_polls_with_its_codes(
    device_code: Seq<char>,
    manager: model::ManagerModel,
    now_ms: i64,
)
    ensures
        ({
            let (phase, after, action) = login::first_login_step(device_code, manager, now_ms);
            let (polled, outcome) = manager.polling(device_code, now_ms);
            &&& after == polled
            &&& outcome is Ok ==> action == login::LoginActionModel::Poll(
                seq![("device_auth_id"@, device_code), ("user_code"@, outcome->Ok_0)],
            ) && phase == login::LoginPhaseModel::Polling
            &&& outcome is Err ==> action == login::LoginActionModel::Return(
                Err(outcome->Err_0),
            )
        }),
{
}

/// A failure of a request, of reading a reply or of saving ends a login with that
/// failure, and changes nothing.
pub proof fn a_failure_ends_a_login(
    phase: login::LoginPhaseModel,
    device_code: Seq<char>,
    manager: model::ManagerModel,
    failure: error::ErrorModel,
    times: LoginTimes,
)
    ensures
        ({
            let ended = (
                login::LoginPhaseModel::Finished,
                manager,
                login::LoginActionModel::Return(Err(failure)),
            );
            &&& login::next_login_step(
                phase,
                device_code,
                manager,
                login::LoginEventModel::Replied(Err(failure)),
                times,
            ) == ended
            &&& login::next_login_step(
                phase,
                device_code,
                manager,
                login::LoginEventModel::GrantRead(Err(failure)),
                times,
            ) == ended
            &&& login::next_login_step(
                phase,
                device_code,
                manager,
                login::LoginEventModel::TokensRead(Err(failure)),
                times,
            ) == ended
            &&& login::next_login_step(
                phase,
                device_code,
                manager,
                login::LoginEventModel::Saved(Err(failure)),
                times,
            ) == ended
        }),
{
}

/// After a poll that was granted its reply is read, and after an exchange that
/// succeeded its reply is; any other status ends the login with what it means.
pub proof fn a_login_goes_on_after_a_success(
    device_code: Seq<char>,
    manager: model::ManagerModel,
    reply: login::ReplyModel,
    times: LoginTimes,
)
    ensures
        ({
            let event = login::LoginEventModel::Replied(Ok(reply));
            let polled = login::next_login_step(
                login::LoginPhaseModel::Polling,
                device_code,
                manager,
                event,
                times,
            );
            let exchanged = login::next_login_step(
                login::LoginPhaseModel::Exchanging,
                device_code,
                manager,
                event,
                times,
            );
            let success = 200 <= reply.status < 300;
            let described = reply.status_text + " - "@ + reply.body;
            &&& polled.1 == manager && exchanged.1 == manager
            &&& success ==> polled.2 == login::LoginActionModel::ReadGrant
            &&& success ==> exchanged.2 == login::LoginActionModel::ReadTokens
            &&& reply.status == 403 || reply.status == 404 ==> polled.2
                == login::LoginActionModel::Return(Err(error::ErrorModel::AuthorizationPending))
            &&& reply.status == 410 ==> polled.2 == login::LoginActionModel::Return(
                Err(error::ErrorModel::ExpiredToken),
            )
            &&& !success && reply.status != 403 && reply.status != 404 && reply.status != 410
                ==> polled.2 == login::LoginActionModel::Return(
                Err(error::ErrorModel::TokenFetchFailed(described)),
            )
            &&& !success ==> exchanged.2 == login::LoginActionModel::Return(
                Err(error::ErrorModel::TokenFetchFailed("Token 交换失败: "@ + described)),
            )
        }),
{
}

/// What the user has granted is exchanged as it was granted: with the code and the
/// verifier of the server, in a form that names the client and where to return.
pub proof fn what_was_granted_is_exchanged(
    device_code: Seq<char>,
    manager: model::ManagerModel,
    grant: login::GrantModel,
    times: LoginTimes,
)
    ensures
        ({
            let (next, after, action) = login::next_login_step(
                login::LoginPhaseModel::ReadingGrant,
                device_code,
                manager,
                login::LoginEventModel::GrantRead(Ok(grant)),
                times,
            );
            &&& after == manager
            &&& next == login::LoginPhaseModel::Exchanging
            &&& action == login::LoginActionModel::Exchange(
                seq![
                    ("grant_type"@, "authorization_code"@),
                    ("code"@, grant.authorization_code),
                    ("redirect_uri"@, "https://auth.openai.com/deviceauth/callback"@),
                    ("client_id"@, "app_EMoamEEZ73f0CkXaXp7hrann"@),
                    ("code_verifier"@, grant.code_verifier),
                ],
            )
        }),
{
}

/// The tokens of a login are kept, then the accounts are saved, and then the account
/// is returned; where they cannot be kept, the reason is returned.
pub proof fn the_tokens_of_a_login_end_it(
    device_code: Seq<char>,
    manager: model::ManagerModel,
    tokens: account::TokensModel,
    times: LoginTimes,
    saved: LoginTimes,
)
    ensures
        ({
            let kept = login::next_login_step(
                login::LoginPhaseModel::ReadingTokens,
                device_code,
                manager,
                login::LoginEventModel::TokensRead(Ok(tokens)),
                times,
            );
            let ended = login::next_login_step(
                kept.0,
                device_code,
                kept.1,
                login::LoginEventModel::Saved(Ok(())),
                saved,
            );
            let (after, outcome) = manager.logging_in(device_code, tokens, times);
            &&& kept.1 == after
            &&& outcome is Ok ==> kept.2 == login::LoginActionModel::Save && ended.1 == after
                && ended.2 == login::LoginActionModel::Return(outcome)
            &&& outcome is Err ==> kept.2 == login::LoginActionModel::Return(outcome)
        }),
{
}

} // verus!
