use codex_oauth_auth::account::{CachedAccessToken, CodexAccountData, OAuthTokenResponse};
use codex_oauth_auth::adoption::{
    adopt_into_account, LiveAuth, RefreshTokenAdoptionMode, RefreshTokenAdoptionOutcome,
};
use codex_oauth_auth::claims::{DecodedToken, IdTokenClaims};
use codex_oauth_auth::error::CodexOAuthError;
use codex_oauth_auth::manager::CodexOAuthManager;

fn token(text: &str) -> DecodedToken {
    DecodedToken::new(text.to_string(), None)
}

fn token_of_workspace(text: &str, workspace: &str) -> DecodedToken {
    DecodedToken::new(
        text.to_string(),
        Some(IdTokenClaims {
            chatgpt_account_id: Some(workspace.to_string()),
            email: None,
            sub: None,
            organizations: Vec::new(),
            openai_auth: None,
        }),
    )
}

fn manager_with_test_account(id_token: &str) -> CodexOAuthManager {
    let mut manager = CodexOAuthManager::new();
    let obtained_at_ms = chrono::Utc::now().timestamp_millis();
    manager
        .add_account_internal(
            "acc-1".to_string(),
            "test-refresh-token".to_string(),
            Some("acc-1@example.test".to_string()),
            None,
            Some(token(id_token)),
            Some(CachedAccessToken {
                token: "access-cached".to_string(),
                expires_at_ms: obtained_at_ms + 3_600_000,
                obtained_at_ms,
            }),
            None,
        )
        .unwrap();
    manager
}

fn account(manager: &CodexOAuthManager) -> &CodexAccountData {
    manager.account("acc-1").expect("account present")
}

fn id_token_text(manager: &CodexOAuthManager) -> Option<&str> {
    account(manager).id_token.as_ref().map(|t| t.text())
}

#[test]
fn adopt_account_refresh_token_syncs_rotated_value() {
    let mut manager = manager_with_test_account("id-1");
    let manager_updated_at = account(&manager).token_updated_at_ms;
    let changed = manager.adopt_account_refresh_token(
        "acc-1",
        "rotated-rt".to_string(),
        Some(token("id-2")),
        Some(manager_updated_at.saturating_add(1)),
    );
    assert!(changed, "rotated refresh_token should be adopted");
    assert_eq!(account(&manager).refresh_token, "rotated-rt");
    assert_eq!(id_token_text(&manager), Some("id-2"));
    assert!(
        manager.access_token("acc-1").is_none(),
        "adopt should invalidate the cached access token"
    );
    assert!(!manager.adopt_account_refresh_token("acc-unknown", "x".to_string(), None, None));
    assert!(!manager.adopt_account_refresh_token("acc-1", "rotated-rt".to_string(), None, None));
}

#[test]
fn adopt_account_refresh_token_rejects_older_live_generation() {
    let mut manager = manager_with_test_account("id-1");
    let manager_updated_at = account(&manager).token_updated_at_ms;
    let changed = manager.adopt_account_refresh_token(
        "acc-1",
        "stale-live-refresh".to_string(),
        None,
        Some(manager_updated_at.saturating_sub(1)),
    );
    assert!(!changed, "older live state must not roll the manager back");
    assert_eq!(account(&manager).refresh_token, "test-refresh-token");
}

#[test]
fn adopt_account_refresh_token_rejects_undated_live_generation() {
    let mut manager = manager_with_test_account("id-1");
    let changed = manager.adopt_account_refresh_token(
        "acc-1",
        "ambiguous-live-refresh".to_string(),
        None,
        None,
    );
    assert!(
        !changed,
        "an undated live token must not roll back a timestamped manager generation"
    );
    assert_eq!(account(&manager).refresh_token, "test-refresh-token");
}

#[test]
fn adopt_account_refresh_token_rejects_stale_id_token_with_same_refresh() {
    let mut manager = manager_with_test_account("id-new");
    let manager_updated_at = account(&manager).token_updated_at_ms;
    let changed = manager.adopt_account_refresh_token(
        "acc-1",
        "test-refresh-token".to_string(),
        Some(token("id-stale")),
        Some(manager_updated_at.saturating_sub(1)),
    );
    assert!(!changed);
    assert_eq!(id_token_text(&manager), Some("id-new"));
}

#[test]
fn adopt_account_refresh_token_rejects_equal_timestamp_generation() {
    let mut manager = manager_with_test_account("id-1");
    let manager_updated_at = account(&manager).token_updated_at_ms;
    let changed = manager.adopt_account_refresh_token(
        "acc-1",
        "same-millisecond-refresh".to_string(),
        None,
        Some(manager_updated_at),
    );
    assert!(!changed);
    assert_eq!(account(&manager).refresh_token, "test-refresh-token");
}

#[test]
fn adopt_account_refresh_token_keeps_legacy_conflict_ambiguous_across_retries() {
    let mut manager = CodexOAuthManager::new();
    manager
        .add_account_internal_at(
            "acc-1".to_string(),
            "test-refresh-token".to_string(),
            Some("acc-1@example.test".to_string()),
            None,
            Some(token("id-manager")),
            Some(CachedAccessToken {
                token: "access-cached".to_string(),
                expires_at_ms: chrono::Utc::now().timestamp_millis() + 3_600_000,
                obtained_at_ms: chrono::Utc::now().timestamp_millis(),
            }),
            None,
            1,
            0,
        )
        .unwrap();

    for attempt in 1..=2 {
        let changed = manager.adopt_account_refresh_token(
            "acc-1",
            "ambiguous-live-refresh".to_string(),
            Some(token("id-live")),
            Some(1_700_000_000_000),
        );
        assert!(
            !changed,
            "legacy conflict must remain unresolved on attempt {attempt}"
        );
    }

    assert_eq!(account(&manager).refresh_token, "test-refresh-token");
    assert_eq!(id_token_text(&manager), Some("id-manager"));
    assert_eq!(
        account(&manager).token_updated_at_ms, 0,
        "dating old manager material would make the next retry falsely classify the live token as older"
    );
    assert!(
        manager.access_token("acc-1").is_some(),
        "an unresolved conflict must not invalidate a valid access token"
    );
}

#[test]
fn rejected_manager_token_adopts_different_disk_token_without_timestamp() {
    let mut manager = manager_with_test_account("id-manager");
    let outcome = manager.adopt_account_refresh_token_under_lock(
        "acc-1",
        LiveAuth {
            refresh_token: "recovered-live-refresh".to_string(),
            id_token: Some(token("id-live")),
            last_refresh_ms: None,
        },
        RefreshTokenAdoptionMode::RejectedManagerToken,
    );
    assert_eq!(outcome, RefreshTokenAdoptionOutcome::Adopted);
    assert_eq!(account(&manager).refresh_token, "recovered-live-refresh");
    assert_eq!(id_token_text(&manager), Some("id-live"));
    assert!(account(&manager).token_updated_at_ms > 0);
    assert!(
        manager.access_token("acc-1").is_none(),
        "forced recovery must invalidate the cached access token"
    );
}

fn kept(updated: i64) -> CodexAccountData {
    CodexAccountData {
        account_id: "acc-1".to_string(),
        email: None,
        chatgpt_account_id: Some("stored".to_string()),
        refresh_token: "rt".to_string(),
        authenticated_at: 1,
        id_token: Some(token("id")),
        token_updated_at_ms: updated,
    }
}

fn live(refresh: &str, id_token: Option<DecodedToken>, at: Option<i64>) -> LiveAuth {
    LiveAuth {
        refresh_token: refresh.to_string(),
        id_token,
        last_refresh_ms: at,
    }
}

const CHECKED: RefreshTokenAdoptionMode = RefreshTokenAdoptionMode::TimestampChecked;
const REJECTED: RefreshTokenAdoptionMode = RefreshTokenAdoptionMode::RejectedManagerToken;

fn synchronized(state_changed: bool) -> RefreshTokenAdoptionOutcome {
    RefreshTokenAdoptionOutcome::Synchronized { state_changed }
}

#[test]
fn the_same_tokens_date_an_account() {
    let meet = |updated: i64, at: Option<i64>| {
        let mut account = kept(updated);
        let outcome = adopt_into_account(&mut account, live("rt", None, at), CHECKED, 500);
        (outcome, account.token_updated_at_ms)
    };
    assert_eq!(meet(0, Some(70)), (synchronized(true), 70));
    assert_eq!(meet(-5, Some(-1)), (synchronized(true), 500));
    assert_eq!(meet(0, None), (synchronized(true), 500));
    assert_eq!(meet(60, Some(70)), (synchronized(true), 70));
    assert_eq!(meet(70, Some(70)), (synchronized(false), 70));
    assert_eq!(meet(80, Some(70)), (synchronized(false), 80));
    assert_eq!(meet(80, None), (synchronized(false), 80));
}

#[test]
fn other_tokens_have_to_be_strictly_newer() {
    let meet = |updated: i64, at: Option<i64>, mode: RefreshTokenAdoptionMode| {
        let mut account = kept(updated);
        let outcome = adopt_into_account(&mut account, live("other", None, at), mode, 500);
        (outcome, account.refresh_token.clone(), account.token_updated_at_ms)
    };
    let adopted = |at: i64| (RefreshTokenAdoptionOutcome::Adopted, "other".to_string(), at);
    assert_eq!(meet(60, Some(61), CHECKED), adopted(61));
    assert_eq!(
        meet(60, Some(60), CHECKED),
        (RefreshTokenAdoptionOutcome::Ambiguous, "rt".to_string(), 60)
    );
    assert_eq!(
        meet(60, Some(59), CHECKED),
        (RefreshTokenAdoptionOutcome::ProvablyOlder, "rt".to_string(), 60)
    );
    assert_eq!(
        meet(60, None, CHECKED),
        (RefreshTokenAdoptionOutcome::Ambiguous, "rt".to_string(), 60)
    );
    assert_eq!(
        meet(0, Some(59), CHECKED),
        (RefreshTokenAdoptionOutcome::Ambiguous, "rt".to_string(), 0)
    );
    assert_eq!(meet(60, Some(61), REJECTED), adopted(61));
    assert_eq!(meet(60, Some(59), REJECTED), adopted(500));
    assert_eq!(meet(60, None, REJECTED), adopted(500));
    assert_eq!(meet(700, None, REJECTED), adopted(701));
    assert_eq!(meet(i64::MAX, None, REJECTED), adopted(i64::MAX));
}

#[test]
fn taking_tokens_over_again_changes_nothing() {
    let mut account = kept(60);
    let disk = live("other", Some(token("id-2")), Some(61));
    assert_eq!(
        adopt_into_account(&mut account, disk.clone(), CHECKED, 500),
        RefreshTokenAdoptionOutcome::Adopted
    );
    assert_eq!(
        adopt_into_account(&mut account, disk.clone(), CHECKED, 600),
        synchronized(false)
    );
    assert_eq!(
        adopt_into_account(&mut account, disk, REJECTED, 600),
        synchronized(false)
    );
    assert_eq!(account.token_updated_at_ms, 61);
}

#[test]
fn a_blank_id_token_is_no_id_token() {
    let mut account = kept(60);
    assert_eq!(
        adopt_into_account(&mut account, live("rt", Some(token(" ")), Some(50)), CHECKED, 500),
        synchronized(false)
    );
    assert_eq!(
        adopt_into_account(&mut account, live("new", Some(token(" ")), Some(70)), CHECKED, 500),
        RefreshTokenAdoptionOutcome::Adopted
    );
    assert_eq!(account.id_token.as_ref().map(|t| t.text()), Some("id"));
}

#[test]
fn new_tokens_set_the_workspace_that_they_name() {
    let mut account = kept(60);
    adopt_into_account(
        &mut account,
        live("new", Some(token_of_workspace("a.e30.b", "ws-2")), Some(70)),
        CHECKED,
        500,
    );
    assert_eq!(account.chatgpt_account_id.as_deref(), Some("ws-2"));
    adopt_into_account(
        &mut account,
        live("newer", Some(token("opaque")), Some(80)),
        CHECKED,
        500,
    );
    assert_eq!(account.chatgpt_account_id.as_deref(), Some("ws-2"));
}

#[test]
fn only_changed_outcomes_need_saving() {
    assert!(RefreshTokenAdoptionOutcome::Adopted.state_changed());
    assert!(synchronized(true).state_changed());
    assert!(!synchronized(false).state_changed());
    assert!(!RefreshTokenAdoptionOutcome::ProvablyOlder.state_changed());
    assert!(!RefreshTokenAdoptionOutcome::Ambiguous.state_changed());
    assert!(!RefreshTokenAdoptionOutcome::NotManaged.state_changed());
}

#[test]
fn a_written_refresh_token_is_trimmed_and_a_blank_one_is_passed_over() {
    let mut manager = manager_with_test_account("id-1");
    let later = account(&manager).token_updated_at_ms + 10;
    assert!(!manager.adopt_account_refresh_token_at(
        "acc-1",
        " \n".to_string(),
        Some(token("id-2")),
        Some(later),
        0
    ));
    assert_eq!(account(&manager).refresh_token, "test-refresh-token");
    assert!(manager.adopt_account_refresh_token_at(
        "acc-1",
        " rotated\n".to_string(),
        None,
        Some(later),
        0
    ));
    assert_eq!(account(&manager).refresh_token, "rotated");
    assert_eq!(account(&manager).token_updated_at_ms, later);
}

#[test]
fn the_reply_of_a_stale_refresh_is_dropped() {
    let mut manager = manager_with_test_account("id-1");
    let tokens = OAuthTokenResponse {
        access_token: token("access-2"),
        refresh_token: Some("rt-2".to_string()),
        id_token: Some(token("id-2")),
        expires_in: None,
    };
    assert_eq!(
        manager
            .renew_account_at("acc-1", "older", &tokens, 7)
            .unwrap_err()
            .message(),
        "OAuth Token 获取失败: 账号凭据已更新，已丢弃旧刷新响应"
    );
    assert_eq!(account(&manager).refresh_token, "test-refresh-token");
    assert!(matches!(
        manager.renew_account_at("nobody", "older", &tokens, 7),
        Err(CodexOAuthError::AccountNotFound(_))
    ));
    let renewal = manager
        .renew_account_at("acc-1", "test-refresh-token", &tokens, 7)
        .unwrap();
    assert!(renewal.needs_save);
    assert_eq!(renewal.refresh_token, "rt-2");
    assert_eq!(renewal.id_token.map(|t| t.text().to_string()).as_deref(), Some("id-2"));
    assert_eq!(account(&manager).token_updated_at_ms, 7);
    assert!(manager.access_token("acc-1").is_some());
}

#[test]
fn a_refresh_keeps_what_the_reply_leaves_out() {
    let mut manager = manager_with_test_account("id-1");
    let at = account(&manager).token_updated_at_ms;
    let empty = OAuthTokenResponse {
        access_token: token("access-2"),
        refresh_token: Some(" ".to_string()),
        id_token: Some(token("")),
        expires_in: None,
    };
    let renewal = manager
        .renew_account_at("acc-1", "test-refresh-token", &empty, at)
        .unwrap();
    assert!(!renewal.needs_save);
    assert_eq!(renewal.refresh_token, "test-refresh-token");
    assert_eq!(renewal.chatgpt_account_id, None);
    assert_eq!(id_token_text(&manager), Some("id-1"));
    let renewal = manager
        .renew_account_at("acc-1", "test-refresh-token", &empty, at + 1)
        .unwrap();
    assert!(renewal.needs_save);
}
