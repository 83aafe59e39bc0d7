use base64::engine::general_purpose::URL_SAFE_NO_PAD;
use base64::Engine;
use codex_oauth_auth::account::{CachedAccessToken, CodexAccountData, OAuthTokenResponse};
use codex_oauth_auth::claims::{DecodedToken, IdTokenClaims};
use codex_oauth_auth::error::CodexOAuthError;
use codex_oauth_auth::listing::{fallback_default_account_id, sorted_accounts};
use codex_oauth_auth::manager::{
    CodexOAuthManager, CodexOAuthStore, DeviceCodeResponse, STORE_VERSION,
};
use codex_oauth_auth::model::LoginTimes;
use codex_oauth_auth::table::Table;

fn token(text: &str) -> DecodedToken {
    DecodedToken::new(text.to_string(), None)
}

fn claims(email: Option<&str>, workspace: Option<&str>) -> IdTokenClaims {
    IdTokenClaims {
        chatgpt_account_id: workspace.map(str::to_string),
        email: email.map(str::to_string),
        sub: None,
        organizations: Vec::new(),
        openai_auth: None,
    }
}

fn unsigned_jwt(email: &str, workspace: &str) -> DecodedToken {
    let header = URL_SAFE_NO_PAD.encode(b"{\"alg\":\"none\"}");
    let payload = format!("{{\"email\":\"{email}\",\"chatgpt_account_id\":\"{workspace}\"}}");
    let encoded = URL_SAFE_NO_PAD.encode(payload.as_bytes());
    DecodedToken::new(
        format!("{header}.{encoded}."),
        Some(claims(Some(email), Some(workspace))),
    )
}

fn add(manager: &mut CodexOAuthManager, id: &str, refresh: &str, email: &str) {
    manager
        .add_account_internal(
            id.to_string(),
            refresh.to_string(),
            Some(email.to_string()),
            None,
            None,
            None,
            None,
        )
        .unwrap();
}

fn data(id: &str, email: &str, authenticated_at: i64) -> CodexAccountData {
    CodexAccountData {
        account_id: id.to_string(),
        email: Some(email.to_string()),
        chatgpt_account_id: None,
        refresh_token: format!("rt-{id}"),
        authenticated_at,
        id_token: None,
        token_updated_at_ms: 1,
    }
}

fn stored(accounts: Vec<CodexAccountData>, default: Option<&str>) -> CodexOAuthManager {
    let mut table = Table::new();
    for account in accounts {
        table.insert(account.account_id.clone(), account);
    }
    CodexOAuthManager::from_store(CodexOAuthStore {
        version: STORE_VERSION,
        accounts: table,
        default_account_id: default.map(str::to_string),
    })
}

fn cached(expires_at_ms: i64) -> CachedAccessToken {
    CachedAccessToken {
        token: "access".to_string(),
        expires_at_ms,
        obtained_at_ms: 1_000,
    }
}

#[test]
fn test_manager_initial_state() {
    let manager = CodexOAuthManager::new();
    assert!(!manager.is_authenticated());
    assert!(manager.list_accounts().is_empty());
}

#[test]
fn test_manager_save_and_load() {
    let mut manager = CodexOAuthManager::new();
    manager
        .add_account_internal(
            "acc-123".to_string(),
            "rt-secret".to_string(),
            Some("user@example.com".to_string()),
            None,
            None,
            None,
            None,
        )
        .unwrap();

    let manager2 = CodexOAuthManager::from_store(manager.to_store());
    let accounts = manager2.list_accounts();
    assert_eq!(accounts.len(), 1);
    assert_eq!(accounts[0].id, "acc-123");
}

#[test]
fn test_remove_account() {
    let mut manager = CodexOAuthManager::new();
    add(&mut manager, "acc-123", "rt", "a@example.com");
    add(&mut manager, "acc-456", "rt2", "b@example.com");

    manager.remove_account("acc-123").unwrap();
    let accounts = manager.list_accounts();
    assert_eq!(accounts.len(), 1);
    assert_eq!(accounts[0].id, "acc-456");
}

#[test]
fn device_commit_rejects_flow_cleared_during_network_poll() {
    let mut manager = CodexOAuthManager::new();
    let login_epoch = manager.login_epoch();
    manager
        .register_pending_device_code(
            "device-auth-id".to_string(),
            "ABCD-EFGH".to_string(),
            chrono::Utc::now().timestamp_millis() + 60_000,
            login_epoch,
        )
        .unwrap();

    manager.clear_auth();
    let result = manager.add_account_internal(
        "acc-after-clear".to_string(),
        "refresh-after-clear".to_string(),
        None,
        None,
        None,
        None,
        Some("device-auth-id"),
    );

    assert!(matches!(result, Err(CodexOAuthError::ExpiredToken)));
    assert!(manager.list_accounts().is_empty());
}

#[test]
fn device_start_rejects_flow_cleared_during_network_request() {
    let mut manager = CodexOAuthManager::new();
    let login_epoch = manager.login_epoch();

    manager.clear_auth();
    let result = manager.register_pending_device_code(
        "stale-device-auth-id".to_string(),
        "ABCD-EFGH".to_string(),
        chrono::Utc::now().timestamp_millis() + 60_000,
        login_epoch,
    );

    assert!(matches!(result, Err(CodexOAuthError::ExpiredToken)));
    assert!(!manager.is_login_pending());
}

#[test]
fn same_team_multiple_accounts_coexist_without_overwrite() {
    let mut manager = CodexOAuthManager::new();
    let team_workspace_id = "11111111-1111-4111-8111-111111111111";
    let acct_1 = format!("user1@example.com::{team_workspace_id}");
    let acct_2 = format!("user2@example.com::{team_workspace_id}");

    manager
        .add_account_internal(
            acct_1.clone(),
            "rt-user1".to_string(),
            Some("user1@example.com".to_string()),
            Some(team_workspace_id.to_string()),
            Some(token("id-token-1")),
            None,
            None,
        )
        .unwrap();
    manager
        .add_account_internal(
            acct_2.clone(),
            "rt-user2".to_string(),
            Some("user2@example.com".to_string()),
            Some(team_workspace_id.to_string()),
            Some(token("id-token-2")),
            None,
            None,
        )
        .unwrap();

    let accounts = manager.list_accounts();
    assert_eq!(accounts.len(), 2);
    assert!(accounts
        .iter()
        .any(|a| a.id == acct_1 && a.login == "user1@example.com (11111111)"));
    assert!(accounts
        .iter()
        .any(|a| a.id == acct_2 && a.login == "user2@example.com (11111111)"));
    assert_eq!(
        manager.get_chatgpt_account_id_for_account(&acct_1).as_deref(),
        Some(team_workspace_id)
    );
    assert_eq!(
        manager.get_chatgpt_account_id_for_account(&acct_2).as_deref(),
        Some(team_workspace_id)
    );
}

#[test]
fn same_user_multiple_teams_coexist_without_overwrite() {
    let mut manager = CodexOAuthManager::new();
    let team_1 = "11111111-1111-4111-8111-111111111111";
    let team_2 = "22222222-2222-4222-8222-222222222222";
    let acct_team_1 = format!("user@example.com::{team_1}");
    let acct_team_2 = format!("user@example.com::{team_2}");
    let acct_personal = "user@example.com".to_string();

    manager
        .add_account_internal(
            acct_team_1.clone(),
            "rt-team1".to_string(),
            Some("user@example.com".to_string()),
            Some(team_1.to_string()),
            Some(token("id-team-1")),
            None,
            None,
        )
        .unwrap();
    manager
        .add_account_internal(
            acct_team_2.clone(),
            "rt-team2".to_string(),
            Some("user@example.com".to_string()),
            Some(team_2.to_string()),
            Some(token("id-team-2")),
            None,
            None,
        )
        .unwrap();
    manager
        .add_account_internal(
            acct_personal.clone(),
            "rt-personal".to_string(),
            Some("user@example.com".to_string()),
            None,
            Some(token("id-personal")),
            None,
            None,
        )
        .unwrap();

    let accounts = manager.list_accounts();
    assert_eq!(accounts.len(), 3);
    assert!(accounts
        .iter()
        .any(|a| a.id == acct_team_1 && a.login == "user@example.com (11111111)"));
    assert!(accounts
        .iter()
        .any(|a| a.id == acct_team_2 && a.login == "user@example.com (22222222)"));
    assert!(accounts
        .iter()
        .any(|a| a.id == acct_personal && a.login == "user@example.com"));
    assert_eq!(
        manager
            .get_chatgpt_account_id_for_account(&acct_team_1)
            .as_deref(),
        Some(team_1)
    );
    assert_eq!(
        manager
            .get_chatgpt_account_id_for_account(&acct_team_2)
            .as_deref(),
        Some(team_2)
    );
    assert_eq!(
        manager
            .get_chatgpt_account_id_for_account(&acct_personal)
            .as_deref(),
        None
    );
}

fn seed_legacy_workspace_account(
    manager: &mut CodexOAuthManager,
    workspace: &str,
    email: Option<&str>,
) {
    let id_token = email.map(|email| unsigned_jwt(email, workspace));
    manager
        .add_account_internal(
            workspace.to_string(),
            "rt-legacy".to_string(),
            email.map(str::to_string),
            Some(workspace.to_string()),
            id_token,
            None,
            None,
        )
        .unwrap();
}

#[test]
fn relogin_writes_a_composite_key_and_leaves_the_legacy_entry() {
    let mut manager = CodexOAuthManager::new();
    let workspace = "team-workspace-uuid";
    seed_legacy_workspace_account(&mut manager, workspace, Some("alice@example.com"));

    manager
        .add_account_internal(
            format!("alice@example.com::{workspace}"),
            "rt-alice-new".to_string(),
            Some("alice@example.com".to_string()),
            Some(workspace.to_string()),
            Some(unsigned_jwt("alice@example.com", workspace)),
            None,
            None,
        )
        .unwrap();

    assert_eq!(manager.account_ids().len(), 2);
    assert_eq!(
        manager.account(workspace).map(|a| a.refresh_token.as_str()),
        Some("rt-legacy")
    );
    assert_eq!(
        manager
            .account(&format!("alice@example.com::{workspace}"))
            .map(|a| a.refresh_token.as_str()),
        Some("rt-alice-new")
    );
}

#[test]
fn another_member_of_the_same_workspace_gets_its_own_key() {
    let mut manager = CodexOAuthManager::new();
    let workspace = "team-workspace-uuid";
    seed_legacy_workspace_account(&mut manager, workspace, Some("alice@example.com"));

    manager
        .add_account_internal(
            format!("bob@example.com::{workspace}"),
            "rt-bob".to_string(),
            Some("bob@example.com".to_string()),
            Some(workspace.to_string()),
            Some(unsigned_jwt("bob@example.com", workspace)),
            None,
            None,
        )
        .unwrap();

    assert_eq!(manager.account_ids().len(), 2);
    assert_eq!(
        manager.account(workspace).map(|a| a.refresh_token.as_str()),
        Some("rt-legacy")
    );
    assert!(manager
        .account(&format!("bob@example.com::{workspace}"))
        .is_some());
}

#[test]
fn the_same_user_in_another_workspace_gets_its_own_key() {
    let mut manager = CodexOAuthManager::new();
    seed_legacy_workspace_account(&mut manager, "workspace-a", Some("alice@example.com"));

    manager
        .add_account_internal(
            "alice@example.com::workspace-b".to_string(),
            "rt-alice-b".to_string(),
            Some("alice@example.com".to_string()),
            Some("workspace-b".to_string()),
            Some(unsigned_jwt("alice@example.com", "workspace-b")),
            None,
            None,
        )
        .unwrap();

    assert_eq!(manager.account_ids().len(), 2);
    assert!(manager.account("workspace-a").is_some());
    assert!(manager.account("alice@example.com::workspace-b").is_some());
}

#[test]
fn stored_accounts_and_their_default_are_read_back() {
    let mut manager = stored(
        vec![data("a", "a@x", 10), data("b", "b@x", 20), data("c", "c@x", 5)],
        None,
    );
    assert_eq!(manager.default_account_id().as_deref(), Some("b"));
    manager.set_default_account("c").unwrap();
    let store = manager.to_store();
    assert_eq!(store.version, 1);
    assert_eq!(store.accounts.len(), 3);
    assert_eq!(store.default_account_id.as_deref(), Some("c"));
    let again = CodexOAuthManager::from_store(store);
    assert_eq!(again.default_account_id().as_deref(), Some("c"));
    assert_eq!(
        again.account("a").map(|a| a.refresh_token.as_str()),
        Some("rt-a")
    );
}

#[test]
fn a_stored_default_that_is_not_there_gives_way_to_the_latest_login() {
    let manager = stored(vec![data("a", "a@x", 10), data("b", "b@x", 20)], Some("gone"));
    assert_eq!(manager.default_account_id().as_deref(), Some("b"));
    assert_eq!(manager.to_store().default_account_id.as_deref(), Some("b"));
    assert_eq!(manager.require_default_account().unwrap(), "b");
}

#[test]
fn of_logins_at_the_same_time_the_smallest_key_is_the_default() {
    let manager = stored(
        vec![data("b", "x", 10), data("a", "y", 10), data("ab", "z", 10)],
        None,
    );
    assert_eq!(manager.default_account_id().as_deref(), Some("a"));
    let empty: Table<CodexAccountData> = Table::new();
    assert_eq!(fallback_default_account_id(&empty), None);
}

#[test]
fn the_default_account_is_listed_first() {
    let manager = stored(
        vec![
            data("a", "zoe", 10),
            data("b", "bob", 20),
            data("c", "amy", 10),
            data("d", "eve", 5),
        ],
        Some("d"),
    );
    let ids: Vec<String> = manager.list_accounts().into_iter().map(|a| a.id).collect();
    assert_eq!(ids, vec!["d", "b", "c", "a"]);
    let status = manager.get_status();
    assert!(status.authenticated);
    assert_eq!(status.default_account_id.as_deref(), Some("d"));
    assert_eq!(status.username.as_deref(), Some("eve"));
    assert_eq!(status.accounts.len(), 4);
    let table = manager.to_store().accounts;
    let ids: Vec<String> = sorted_accounts(&table, None)
        .into_iter()
        .map(|a| a.id)
        .collect();
    assert_eq!(ids, vec!["b", "c", "a", "d"]);
}

#[test]
fn the_status_names_the_first_account_where_the_default_has_no_email() {
    let mut nameless = data("key", "", 10);
    nameless.email = None;
    let manager = stored(vec![nameless, data("b", "b@x", 5)], None);
    let status = manager.get_status();
    assert_eq!(status.default_account_id.as_deref(), Some("key"));
    assert_eq!(status.username.as_deref(), Some("ChatGPT (key)"));
    let nobody = CodexOAuthManager::new().get_status();
    assert!(!nobody.authenticated);
    assert_eq!(nobody.default_account_id, None);
    assert_eq!(nobody.username, None);
    assert!(nobody.accounts.is_empty());
}

#[test]
fn without_accounts_there_is_no_default() {
    let manager = CodexOAuthManager::new();
    assert_eq!(manager.default_account_id(), None);
    assert_eq!(
        manager.require_default_account().unwrap_err().message(),
        "账号不存在: 无可用的 ChatGPT 账号"
    );
    assert_eq!(
        manager.require_account("x").unwrap_err().message(),
        "账号不存在: x"
    );
}

#[test]
fn only_an_account_that_is_there_can_be_the_default_or_be_removed() {
    let mut manager = stored(vec![data("a", "a@x", 10), data("b", "b@x", 20)], Some("a"));
    assert!(matches!(
        manager.set_default_account("x"),
        Err(CodexOAuthError::AccountNotFound(_))
    ));
    assert!(matches!(
        manager.remove_account("x"),
        Err(CodexOAuthError::AccountNotFound(_))
    ));
    assert_eq!(manager.default_account_id().as_deref(), Some("a"));
    manager.cache_access_token("a", cached(1)).unwrap();
    assert!(matches!(
        manager.cache_access_token("x", cached(1)),
        Err(CodexOAuthError::AccountNotFound(_))
    ));
    manager.cache_access_token("b", cached(2)).unwrap();
    manager.remove_account("a").unwrap();
    assert!(manager.account("a").is_none());
    assert!(manager.access_token("a").is_none());
    assert!(manager.access_token("b").is_some());
    assert_eq!(manager.default_account_id().as_deref(), Some("b"));
    manager.remove_account("b").unwrap();
    assert!(!manager.is_authenticated());
    assert_eq!(manager.default_account_id(), None);
}

#[test]
fn an_access_token_is_reused_while_a_minute_is_left_of_it() {
    let mut manager = stored(vec![data("a", "a@x", 10)], None);
    assert!(manager.resolve_valid_cached_token("a").unwrap().is_none());
    manager.cache_access_token("a", cached(100_000)).unwrap();
    assert_eq!(
        manager
            .resolve_valid_cached_token_at("a", 40_000)
            .unwrap()
            .map(|c| c.token)
            .as_deref(),
        Some("access")
    );
    assert!(manager
        .resolve_valid_cached_token_at("a", 40_001)
        .unwrap()
        .is_none());
    assert!(matches!(
        manager.resolve_valid_cached_token_at("x", 0),
        Err(CodexOAuthError::AccountNotFound(_))
    ));
    assert!(matches!(
        manager.resolve_valid_cached_token("x"),
        Err(CodexOAuthError::AccountNotFound(_))
    ));
    let mut ids = manager.account_ids();
    ids.sort();
    assert_eq!(ids, vec!["a"]);
}

#[test]
fn adding_an_account_again_replaces_it_and_its_access_token() {
    let mut manager = CodexOAuthManager::new();
    let mut put = |refresh: &str, access: Option<CachedAccessToken>, at: i64| {
        manager
            .add_account_internal_at(
                "a".to_string(),
                refresh.to_string(),
                None,
                None,
                None,
                access,
                None,
                at,
                at * 1000,
            )
            .unwrap()
    };
    put("one", Some(cached(5)), 1);
    let shown = put("two", None, 2);
    assert_eq!(shown.authenticated_at, 2);
    assert!(shown.reauth_required);
    let account = manager.account("a").unwrap();
    assert_eq!(account.refresh_token, "two");
    assert_eq!(account.token_updated_at_ms, 2_000);
    assert!(manager.access_token("a").is_none());
    assert_eq!(manager.account_ids().len(), 1);
}

fn device(interval: Option<serde_json::Value>, expires_in: Option<u64>) -> DeviceCodeResponse {
    DeviceCodeResponse {
        device_auth_id: "device".to_string(),
        user_code: "CODE".to_string(),
        interval,
        expires_in,
    }
}

#[test]
fn a_login_waits_for_the_user_until_it_expires() {
    let mut manager = CodexOAuthManager::new();
    let flow = manager
        .start_device_flow_at(device(None, None), 0, 1_000, 1_000)
        .unwrap();
    assert_eq!(flow.device_code, "device");
    assert_eq!(flow.user_code, "CODE");
    assert_eq!(
        flow.verification_uri,
        "https://auth.openai.com/codex/device"
    );
    assert_eq!(flow.expires_in, 900);
    assert_eq!(flow.interval, 8);
    assert_eq!(
        manager.pending_device_code("device").map(|p| p.expires_at_ms),
        Some(901_000)
    );
    assert!(manager.is_login_pending());
    assert_eq!(manager.begin_poll_at("device", 900_999).unwrap(), "CODE");
    assert!(matches!(
        manager.begin_poll_at("device", 901_000),
        Err(CodexOAuthError::ExpiredToken)
    ));
    assert!(manager.pending_device_code("device").is_none());
    assert_eq!(
        manager
            .begin_poll_at("device", 901_000)
            .unwrap_err()
            .message(),
        "OAuth Token 获取失败: 未找到对应的 user_code，请重新启动登录流程"
    );
}

#[test]
fn a_new_login_drops_those_that_have_expired() {
    let mut manager = CodexOAuthManager::new();
    let mut register = |id: &str, expires_at_ms: i64, now_ms: i64| {
        manager
            .register_pending_device_code_at(
                id.to_string(),
                format!("code-{id}"),
                expires_at_ms,
                0,
                now_ms,
            )
            .unwrap()
    };
    register("old", 100, 0);
    register("edge", 200, 0);
    register("live", 201, 0);
    register("new", 500, 200);
    assert!(manager.pending_device_code("old").is_none());
    assert!(manager.pending_device_code("edge").is_none());
    assert_eq!(
        manager.pending_device_code("live").map(|p| p.user_code.as_str()),
        Some("code-live")
    );
    assert!(manager.pending_device_code("new").is_some());
}

#[test]
fn a_device_code_with_times_out_of_range_starts_nothing() {
    let mut manager = CodexOAuthManager::new();
    assert!(manager
        .start_device_flow(device(None, Some(9_223_372_036_854_776)), 0)
        .is_none());
    let interval = serde_json::Value::Number(serde_json::Number::from(u64::MAX));
    assert!(manager
        .start_device_flow(device(Some(interval), None), 0)
        .is_none());
    assert!(manager.pending_device_code("device").is_none());
    let flow = manager
        .start_device_flow(device(None, Some(u64::MAX)), 0)
        .unwrap()
        .unwrap();
    assert_eq!(flow.expires_in, u64::MAX);
    assert!(matches!(
        manager.begin_poll("device"),
        Err(CodexOAuthError::ExpiredToken)
    ));
    assert!(matches!(
        manager.start_device_flow(device(None, None), 7),
        Some(Err(CodexOAuthError::ExpiredToken))
    ));
}

fn times() -> LoginTimes {
    LoginTimes {
        obtained_at_ms: 2_000,
        life_from_ms: 3_000,
        authenticated_at: 4,
        token_updated_at_ms: 5_000,
    }
}

fn tokens(refresh: Option<&str>, id_token: Option<DecodedToken>) -> OAuthTokenResponse {
    OAuthTokenResponse {
        access_token: token("access"),
        refresh_token: refresh.map(str::to_string),
        id_token,
        expires_in: Some(60),
    }
}

#[test]
fn a_login_is_completed_once() {
    let mut manager = CodexOAuthManager::new();
    manager
        .start_device_flow_at(device(None, None), 0, 1_000, 1_000)
        .unwrap();
    assert_eq!(
        manager
            .poll_for_token_at("device", tokens(None, None), times())
            .unwrap_err()
            .message(),
        "OAuth Token 获取失败: 响应缺少 refresh_token"
    );
    assert_eq!(
        manager
            .poll_for_token_at("device", tokens(Some("rt"), None), times())
            .unwrap_err()
            .message(),
        "解析错误: 无法从 token 中提取 account_id"
    );
    assert!(manager.pending_device_code("device").is_some());
    let id_token = unsigned_jwt("A@x.org", "ws");
    let shown = manager
        .poll_for_token_at("device", tokens(Some("rt"), Some(id_token.clone())), times())
        .unwrap();
    assert_eq!(shown.id, "a@x.org::ws");
    assert_eq!(shown.login, "A@x.org (ws)");
    assert_eq!(shown.authenticated_at, 4);
    assert!(!shown.reauth_required);
    let account = manager.account("a@x.org::ws").unwrap();
    assert_eq!(account.refresh_token, "rt");
    assert_eq!(account.token_updated_at_ms, 5_000);
    let access = manager.access_token("a@x.org::ws").unwrap();
    assert_eq!(access.token, "access");
    assert_eq!(access.expires_at_ms, 63_000);
    assert_eq!(access.obtained_at_ms, 2_000);
    assert_eq!(
        manager.default_account_id().as_deref(),
        Some("a@x.org::ws")
    );
    assert!(matches!(
        manager.poll_for_token("device", tokens(Some("rt"), Some(id_token))),
        Err(CodexOAuthError::ExpiredToken)
    ));
    assert_eq!(manager.account_ids().len(), 1);
}

#[test]
fn clearing_ends_every_login() {
    let mut manager = stored(vec![data("a", "a@x", 10)], Some("a"));
    manager.cache_access_token("a", cached(1)).unwrap();
    let epoch = manager.login_epoch();
    manager
        .start_device_flow_at(device(None, None), epoch, 1_000, 1_000)
        .unwrap();
    manager.clear_auth();
    assert_ne!(manager.login_epoch(), epoch);
    assert!(!manager.is_authenticated());
    assert!(manager.access_token("a").is_none());
    assert!(manager.pending_device_code("device").is_none());
    assert!(matches!(
        manager.start_device_flow_at(device(None, None), epoch, 1_000, 1_000),
        Err(CodexOAuthError::ExpiredToken)
    ));
    let again = manager.login_epoch();
    assert!(manager
        .start_device_flow_at(device(None, None), again, 1_000, 1_000)
        .is_ok());
}
