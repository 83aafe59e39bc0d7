use codex_oauth_auth::account::{CachedAccessToken, OAuthTokenResponse};
use codex_oauth_auth::adoption::LiveAuth;
use codex_oauth_auth::claims::DecodedToken;
use codex_oauth_auth::error::CodexOAuthError;
use codex_oauth_auth::handover::{
    ambiguous_live_refresh_error, BundleAssembly, HandoverAction, HandoverEvent, SwitchAway,
};
use codex_oauth_auth::login::{
    DeviceLogin, DevicePollSuccess, HttpReply, LoginAction, LoginEvent,
};
use codex_oauth_auth::manager::{CodexOAuthManager, DeviceCodeResponse};
use codex_oauth_auth::model::LoginTimes;
use codex_oauth_auth::resolution::{
    ResolutionAction, ResolutionEvent, StepTimes, TokenResolution,
};

const DAY: StepTimes = StepTimes {
    now_ms: 1_000_000,
    later_ms: 2_000_000,
};

fn token(text: &str) -> DecodedToken {
    DecodedToken::new(text.to_string(), None)
}

fn cached(expires_at_ms: i64) -> CachedAccessToken {
    CachedAccessToken {
        token: "access".to_string(),
        expires_at_ms,
        obtained_at_ms: 0,
    }
}

fn center(workspace: Option<&str>, access: Option<CachedAccessToken>) -> CodexOAuthManager {
    let mut manager = CodexOAuthManager::new();
    manager
        .add_account_internal_at(
            "user::ws".to_string(),
            "rt".to_string(),
            Some("user@example.com".to_string()),
            workspace.map(str::to_string),
            Some(token("id")),
            access,
            None,
            1,
            500,
        )
        .unwrap();
    manager
}

fn live(refresh: &str, at: Option<i64>) -> LiveAuth {
    LiveAuth {
        refresh_token: refresh.to_string(),
        id_token: None,
        last_refresh_ms: at,
    }
}

fn reply(refresh: Option<&str>) -> OAuthTokenResponse {
    OAuthTokenResponse {
        access_token: token("access-2"),
        refresh_token: refresh.map(str::to_string),
        id_token: Some(token("id-2")),
        expires_in: Some(60),
    }
}

fn start() -> TokenResolution {
    let (resolution, action) = TokenResolution::new("user::ws");
    assert!(matches!(action, ResolutionAction::ReadLiveAuth));
    resolution
}

#[test]
fn a_valid_access_token_is_returned_as_it_is() {
    let mut manager = center(Some("ws"), Some(cached(9_000_000)));
    let mut resolution = start();
    let action = resolution.step_at(&mut manager, ResolutionEvent::LiveAuth(None), DAY);
    match action {
        ResolutionAction::Return(Ok(found)) => assert_eq!(found.token, "access"),
        other => panic!("{other:?}"),
    }
}

#[test]
fn an_account_that_is_not_there_has_no_token() {
    let mut manager = CodexOAuthManager::new();
    let mut resolution = start();
    let action = resolution.step_at(
        &mut manager,
        ResolutionEvent::LiveAuth(Some(live("rt", Some(1)))),
        DAY,
    );
    assert!(matches!(
        action,
        ResolutionAction::Return(Err(CodexOAuthError::AccountNotFound(_)))
    ));
}

#[test]
fn an_expired_access_token_is_refreshed_and_kept() {
    let mut manager = center(Some("ws"), Some(cached(1_000_001)));
    let mut resolution = start();
    match resolution.step_at(&mut manager, ResolutionEvent::LiveAuth(None), DAY) {
        ResolutionAction::Refresh(used) => assert_eq!(used, "rt"),
        other => panic!("{other:?}"),
    }
    let action = resolution.step_at(
        &mut manager,
        ResolutionEvent::Refreshed(Ok(reply(Some("rt-2")))),
        DAY,
    );
    assert!(matches!(action, ResolutionAction::Save));
    match resolution.step_at(&mut manager, ResolutionEvent::Saved(Ok(())), DAY) {
        ResolutionAction::SyncLiveAuth(update) => {
            assert_eq!(update.account_id, "user::ws");
            assert_eq!(update.previous_refresh_token, "rt");
            assert_eq!(update.tokens_account_id, "ws");
            assert_eq!(update.access_token, "access-2");
            assert_eq!(update.id_token.as_deref(), Some("id-2"));
            assert_eq!(update.refresh_token, "rt-2");
            assert_eq!(update.last_refresh, "1970-01-01T00:16:40.000000000Z");
        }
        other => panic!("{other:?}"),
    }
    assert_eq!(
        manager.access_token("user::ws").map(|c| c.token.as_str()),
        Some("access")
    );
    match resolution.step_at(&mut manager, ResolutionEvent::Synced, DAY) {
        ResolutionAction::Return(Ok(found)) => {
            assert_eq!(found.token, "access-2");
            assert_eq!(found.expires_at_ms, 2_060_000);
            assert_eq!(found.obtained_at_ms, 1_000_000);
        }
        other => panic!("{other:?}"),
    }
    assert_eq!(
        manager.access_token("user::ws").map(|c| c.token.as_str()),
        Some("access-2")
    );
    let account = manager.account("user::ws").unwrap();
    assert_eq!(account.refresh_token, "rt-2");
    assert_eq!(account.token_updated_at_ms, 1_000_000);
}

#[test]
fn a_refresh_that_leaves_the_account_as_it_is_saves_nothing() {
    let mut manager = center(None, None);
    let mut resolution = start();
    let times = StepTimes {
        now_ms: 500,
        later_ms: 500,
    };
    resolution.step_at(&mut manager, ResolutionEvent::LiveAuth(None), times);
    let same = OAuthTokenResponse {
        access_token: token("access-2"),
        refresh_token: None,
        id_token: None,
        expires_in: None,
    };
    match resolution.step_at(&mut manager, ResolutionEvent::Refreshed(Ok(same)), times) {
        ResolutionAction::SyncLiveAuth(update) => {
            assert_eq!(update.tokens_account_id, "");
            assert_eq!(update.refresh_token, "rt");
            assert_eq!(update.id_token.as_deref(), Some("id"));
        }
        other => panic!("{other:?}"),
    }
    manager.remove_account("user::ws").unwrap();
    assert!(matches!(
        resolution.step(&mut manager, ResolutionEvent::Synced),
        ResolutionAction::Return(Err(CodexOAuthError::AccountNotFound(_)))
    ));
    assert!(manager.access_token("user::ws").is_none());
}

#[test]
fn newer_tokens_in_the_file_are_saved_before_they_are_used() {
    let mut manager = center(None, Some(cached(9_000_000)));
    let mut resolution = start();
    let action = resolution.step(
        &mut manager,
        ResolutionEvent::LiveAuth(Some(live("rt-cli", Some(600)))),
    );
    assert!(matches!(action, ResolutionAction::Save));
    match resolution.step(&mut manager, ResolutionEvent::Saved(Ok(()))) {
        ResolutionAction::Refresh(used) => assert_eq!(used, "rt-cli"),
        other => panic!("{other:?}"),
    }
}

#[test]
fn a_failure_to_save_is_returned() {
    let mut manager = center(None, None);
    let mut resolution = start();
    resolution.step(
        &mut manager,
        ResolutionEvent::LiveAuth(Some(live("rt-cli", Some(600)))),
    );
    let failure = CodexOAuthError::IoError("disk".to_string());
    match resolution.step(&mut manager, ResolutionEvent::Saved(Err(failure))) {
        ResolutionAction::Return(Err(error)) => assert_eq!(error.message(), "IO 错误: disk"),
        other => panic!("{other:?}"),
    }
}

fn rejected() -> (CodexOAuthManager, TokenResolution) {
    let mut manager = center(None, None);
    let mut resolution = start();
    resolution.step_at(&mut manager, ResolutionEvent::LiveAuth(None), DAY);
    let action = resolution.step_at(
        &mut manager,
        ResolutionEvent::Refreshed(Err(CodexOAuthError::RefreshTokenInvalid)),
        DAY,
    );
    assert!(matches!(action, ResolutionAction::ReadLiveAuth));
    (manager, resolution)
}

#[test]
fn a_rejected_token_gives_way_to_the_one_in_the_file_once() {
    let (mut manager, mut resolution) = rejected();
    let action = resolution.step_at(
        &mut manager,
        ResolutionEvent::LiveAuth(Some(live("rt-cli", None))),
        DAY,
    );
    assert!(matches!(action, ResolutionAction::Save));
    assert_eq!(manager.account("user::ws").unwrap().refresh_token, "rt-cli");
    match resolution.step_at(&mut manager, ResolutionEvent::Saved(Ok(())), DAY) {
        ResolutionAction::Refresh(used) => assert_eq!(used, "rt-cli"),
        other => panic!("{other:?}"),
    }
    let action = resolution.step_at(
        &mut manager,
        ResolutionEvent::Refreshed(Err(CodexOAuthError::RefreshTokenInvalid)),
        DAY,
    );
    assert!(matches!(
        action,
        ResolutionAction::Return(Err(CodexOAuthError::RefreshTokenInvalid))
    ));
}

#[test]
fn a_rejected_token_is_not_tried_again() {
    let (mut manager, mut resolution) = rejected();
    let action = resolution.step_at(
        &mut manager,
        ResolutionEvent::LiveAuth(Some(live(" rt ", Some(9_999_999)))),
        DAY,
    );
    assert!(matches!(
        action,
        ResolutionAction::Return(Err(CodexOAuthError::RefreshTokenInvalid))
    ));
    let (mut manager, mut resolution) = rejected();
    assert!(matches!(
        resolution.step_at(&mut manager, ResolutionEvent::LiveAuth(None), DAY),
        ResolutionAction::Return(Err(CodexOAuthError::RefreshTokenInvalid))
    ));
}

#[test]
fn another_failure_to_refresh_is_returned() {
    let mut manager = center(None, None);
    let mut resolution = start();
    resolution.step_at(&mut manager, ResolutionEvent::LiveAuth(None), DAY);
    let action = resolution.step_at(
        &mut manager,
        ResolutionEvent::Refreshed(Err(CodexOAuthError::NetworkError("down".to_string()))),
        DAY,
    );
    match action {
        ResolutionAction::Return(Err(error)) => assert_eq!(error.message(), "网络错误: down"),
        other => panic!("{other:?}"),
    }
}

#[test]
fn a_reply_for_a_token_that_was_replaced_is_refused() {
    let mut manager = center(None, None);
    let mut resolution = start();
    resolution.step_at(&mut manager, ResolutionEvent::LiveAuth(None), DAY);
    manager.adopt_account_refresh_token("user::ws", "rt-cli".to_string(), None, Some(600));
    let action = resolution.step_at(
        &mut manager,
        ResolutionEvent::Refreshed(Ok(reply(Some("rt-2")))),
        DAY,
    );
    assert!(matches!(
        action,
        ResolutionAction::Return(Err(CodexOAuthError::TokenFetchFailed(_)))
    ));
    assert_eq!(manager.account("user::ws").unwrap().refresh_token, "rt-cli");
}

#[test]
fn a_bundle_holds_the_tokens_of_the_account() {
    for found in [None, Some(live("rt", Some(500))), Some(live("old", Some(400)))] {
        let mut manager = center(Some("ws"), None);
        let (mut assembly, action) = BundleAssembly::new("user::ws", cached(9));
        assert!(matches!(action, HandoverAction::ReadLiveAuth));
        match assembly.step_at(&mut manager, HandoverEvent::LiveAuth(found), DAY) {
            HandoverAction::Return(Ok(bundle)) => {
                assert_eq!(bundle.access_token, "access");
                assert_eq!(bundle.refresh_token, "rt");
                assert_eq!(bundle.id_token.as_deref(), Some("id"));
                assert_eq!(bundle.chatgpt_account_id.as_deref(), Some("ws"));
                assert_eq!(bundle.last_refresh, "1970-01-01T00:00:00.000000000Z");
                assert_eq!(
                    bundle.into_token_and_id_token(),
                    ("access".to_string(), Some("id".to_string()))
                );
            }
            other => panic!("{other:?}"),
        }
    }
}

#[test]
fn a_bundle_is_refused_where_the_file_may_be_newer() {
    let mut manager = center(None, None);
    let (mut assembly, _) = BundleAssembly::new("user::ws", cached(9));
    let event = HandoverEvent::LiveAuth(Some(live("other", None)));
    match assembly.step(&mut manager, event) {
        HandoverAction::Return(Err(error)) => {
            assert_eq!(
                error.message(),
                ambiguous_live_refresh_error("user::ws").message()
            );
            assert_eq!(
                error.message(),
                "OAuth Token 获取失败: Codex CLI 账号 user::ws 的磁盘凭据已变化，但无法安全判断 refresh token 新旧；为避免覆盖或删除有效登录，本次操作已取消。请先在认证中心重新登录该账号；若仍失败，请移除后重新登录"
            );
        }
        other => panic!("{other:?}"),
    }
    let (mut assembly, _) = BundleAssembly::new("user::ws", cached(9));
    let event = HandoverEvent::LiveAuth(Some(live("newer", Some(600))));
    assert!(matches!(
        assembly.step(&mut manager, event),
        HandoverAction::Save
    ));
    match assembly.step(&mut manager, HandoverEvent::Saved(Ok(()))) {
        HandoverAction::Return(Err(error)) => assert_eq!(
            error.message(),
            "OAuth Token 获取失败: Codex CLI 账号 user::ws 的磁盘凭据在准备写入期间已刷新；为避免写入混合 token bundle，本次操作已取消，请重试"
        ),
        other => panic!("{other:?}"),
    }
    assert_eq!(manager.account("user::ws").unwrap().refresh_token, "newer");
}

#[test]
fn a_bundle_needs_its_account_and_a_saved_time() {
    let mut nobody = CodexOAuthManager::new();
    for found in [None, Some(live("rt", None))] {
        let (mut assembly, _) = BundleAssembly::new("user::ws", cached(9));
        assert!(matches!(
            assembly.step(&mut nobody, HandoverEvent::LiveAuth(found)),
            HandoverAction::Return(Err(CodexOAuthError::AccountNotFound(_)))
        ));
    }
    let mut manager = center(None, None);
    let (mut assembly, _) = BundleAssembly::new("user::ws", cached(9));
    let event = HandoverEvent::LiveAuth(Some(live("rt", Some(600))));
    assert!(matches!(
        assembly.step(&mut manager, event),
        HandoverAction::Save
    ));
    assert!(matches!(
        assembly.step(&mut manager, HandoverEvent::Saved(Ok(()))),
        HandoverAction::Return(Ok(_))
    ));
    let (mut assembly, _) = BundleAssembly::new("user::ws", cached(9));
    let event = HandoverEvent::LiveAuth(Some(live("rt", Some(700))));
    assembly.step(&mut manager, event);
    let failure = HandoverEvent::Saved(Err(CodexOAuthError::IoError("disk".to_string())));
    assert!(matches!(
        assembly.step(&mut manager, failure),
        HandoverAction::Return(Err(CodexOAuthError::IoError(_)))
    ));
}

#[test]
fn giving_the_file_up_returns_the_refresh_token_in_it() {
    let give_up = |found: Option<LiveAuth>| {
        let mut manager = center(None, None);
        let (mut switch, action) = SwitchAway::new("user::ws");
        assert!(matches!(action, HandoverAction::ReadLiveAuth));
        let action = switch.step_at(&mut manager, HandoverEvent::LiveAuth(found), 900);
        match action {
            HandoverAction::Save => switch.step(&mut manager, HandoverEvent::Saved(Ok(()))),
            other => other,
        }
    };
    let returned = |found: Option<LiveAuth>| match give_up(found) {
        HandoverAction::Return(Ok(refresh_token)) => refresh_token,
        other => panic!("{other:?}"),
    };
    assert_eq!(returned(None), None);
    assert_eq!(returned(Some(live("rt", None))).as_deref(), Some("rt"));
    assert_eq!(
        returned(Some(live("newer", Some(600)))).as_deref(),
        Some("newer")
    );
    assert_eq!(
        returned(Some(live("older", Some(400)))).as_deref(),
        Some("older")
    );
    assert!(matches!(
        give_up(Some(live("other", None))),
        HandoverAction::Return(Err(CodexOAuthError::TokenFetchFailed(_)))
    ));
    let mut nobody = CodexOAuthManager::new();
    let (mut switch, _) = SwitchAway::new("user::ws");
    assert!(matches!(
        switch.step(&mut nobody, HandoverEvent::LiveAuth(Some(live("rt", None)))),
        HandoverAction::Return(Err(CodexOAuthError::AccountNotFound(_)))
    ));
    let mut manager = center(None, None);
    let (mut switch, _) = SwitchAway::new("user::ws");
    switch.step(
        &mut manager,
        HandoverEvent::LiveAuth(Some(live("newer", Some(600)))),
    );
    let failure = HandoverEvent::Saved(Err(CodexOAuthError::IoError("disk".to_string())));
    assert!(matches!(
        switch.step(&mut manager, failure),
        HandoverAction::Return(Err(CodexOAuthError::IoError(_)))
    ));
}

fn waiting() -> CodexOAuthManager {
    let mut manager = CodexOAuthManager::new();
    let epoch = manager.login_epoch();
    manager
        .start_device_flow_at(
            DeviceCodeResponse {
                device_auth_id: "device".to_string(),
                user_code: "CODE".to_string(),
                interval: None,
                expires_in: None,
            },
            epoch,
            0,
            0,
        )
        .unwrap();
    manager
}

const LOGIN: LoginTimes = LoginTimes {
    obtained_at_ms: 1_000,
    life_from_ms: 2_000,
    authenticated_at: 3,
    token_updated_at_ms: 4_000,
};

fn http(status: u16) -> LoginEvent {
    LoginEvent::Replied(Ok(HttpReply {
        status,
        status_text: format!("{status} Reason"),
        body: "body".to_string(),
    }))
}

fn pair(name: &str, value: &str) -> (String, String) {
    (name.to_string(), value.to_string())
}

fn granted() -> (CodexOAuthManager, DeviceLogin) {
    let mut manager = waiting();
    let (mut login, action) = DeviceLogin::begin_at(&mut manager, "device", 10);
    match action {
        LoginAction::Poll(fields) => assert_eq!(
            fields,
            vec![pair("device_auth_id", "device"), pair("user_code", "CODE")]
        ),
        other => panic!("{other:?}"),
    }
    assert!(matches!(
        login.step_at(&mut manager, http(200), LOGIN),
        LoginAction::ReadGrant
    ));
    let grant = DevicePollSuccess {
        authorization_code: "auth-code".to_string(),
        code_verifier: "verifier".to_string(),
    };
    match login.step_at(&mut manager, LoginEvent::GrantRead(Ok(grant)), LOGIN) {
        LoginAction::Exchange(fields) => {
            assert_eq!(fields.len(), 5);
            assert_eq!(fields[1], pair("code", "auth-code"));
            assert_eq!(fields[4], pair("code_verifier", "verifier"));
        }
        other => panic!("{other:?}"),
    }
    (manager, login)
}

#[test]
fn a_login_ends_with_an_account() {
    let (mut manager, mut login) = granted();
    assert!(matches!(
        login.step_at(&mut manager, http(200), LOGIN),
        LoginAction::ReadTokens
    ));
    let tokens = OAuthTokenResponse {
        access_token: token("access"),
        refresh_token: Some("rt".to_string()),
        id_token: Some(DecodedToken::new(
            "a.e30.b".to_string(),
            Some(codex_oauth_auth::claims::IdTokenClaims {
                chatgpt_account_id: Some("ws".to_string()),
                email: None,
                sub: Some("sub-1".to_string()),
                organizations: Vec::new(),
                openai_auth: None,
            }),
        )),
        expires_in: Some(60),
    };
    assert!(matches!(
        login.step_at(&mut manager, LoginEvent::TokensRead(Ok(tokens)), LOGIN),
        LoginAction::Save
    ));
    assert_eq!(
        manager.access_token("sub-1::ws").map(|c| c.expires_at_ms),
        Some(62_000)
    );
    match login.step(&mut manager, LoginEvent::Saved(Ok(()))) {
        LoginAction::Return(Ok(account)) => assert_eq!(account.id, "sub-1::ws"),
        other => panic!("{other:?}"),
    }
    assert!(manager.pending_device_code("device").is_none());
}

#[test]
fn a_login_that_was_cleared_meanwhile_is_refused() {
    let (mut manager, mut login) = granted();
    manager.clear_auth();
    login.step_at(&mut manager, http(200), LOGIN);
    let tokens = OAuthTokenResponse {
        access_token: DecodedToken::new(
            "a.e30.b".to_string(),
            Some(codex_oauth_auth::claims::IdTokenClaims {
                chatgpt_account_id: None,
                email: Some("a@b.c".to_string()),
                sub: None,
                organizations: Vec::new(),
                openai_auth: None,
            }),
        ),
        refresh_token: Some("rt".to_string()),
        id_token: None,
        expires_in: None,
    };
    assert!(matches!(
        login.step(&mut manager, LoginEvent::TokensRead(Ok(tokens))),
        LoginAction::Return(Err(CodexOAuthError::ExpiredToken))
    ));
    assert!(!manager.is_authenticated());
}

#[test]
fn a_login_ends_with_the_first_failure() {
    let mut manager = CodexOAuthManager::new();
    let (_, action) = DeviceLogin::begin(&mut manager, "device");
    assert!(matches!(
        action,
        LoginAction::Return(Err(CodexOAuthError::TokenFetchFailed(_)))
    ));
    let mut manager = waiting();
    let (_, action) = DeviceLogin::begin_at(&mut manager, "device", 900_000);
    assert!(matches!(
        action,
        LoginAction::Return(Err(CodexOAuthError::ExpiredToken))
    ));
    let mut manager = waiting();
    let (mut login, _) = DeviceLogin::begin_at(&mut manager, "device", 10);
    assert!(matches!(
        login.step(&mut manager, http(403)),
        LoginAction::Return(Err(CodexOAuthError::AuthorizationPending))
    ));
    assert!(manager.pending_device_code("device").is_some());
    let (mut manager, mut login) = granted();
    match login.step(&mut manager, http(500)) {
        LoginAction::Return(Err(error)) => assert_eq!(
            error.message(),
            "OAuth Token 获取失败: Token 交换失败: 500 Reason - body"
        ),
        other => panic!("{other:?}"),
    }
    let (mut manager, mut login) = granted();
    let failure = LoginEvent::Replied(Err(CodexOAuthError::NetworkError("down".to_string())));
    assert!(matches!(
        login.step(&mut manager, failure),
        LoginAction::Return(Err(CodexOAuthError::NetworkError(_)))
    ));
}
