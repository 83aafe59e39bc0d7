use codex_oauth_auth::account::CachedAccessToken;
use codex_oauth_auth::error::CodexOAuthError;
use codex_oauth_auth::manager::CodexOAuthManager;
use codex_oauth_auth::removal::{
    AccountRemoval, AuthClearing, ClearingAction, ClearingEvent, RemovalAction, RemovalEvent,
};

fn center(ids: &[&str]) -> CodexOAuthManager {
    let mut manager = CodexOAuthManager::new();
    for (i, id) in ids.iter().enumerate() {
        manager
            .add_account_internal_at(
                id.to_string(),
                format!("rt-{id}"),
                None,
                None,
                None,
                Some(CachedAccessToken {
                    token: format!("access-{id}"),
                    expires_at_ms: 9,
                    obtained_at_ms: 1,
                }),
                None,
                i as i64,
                1,
            )
            .unwrap();
    }
    manager
}

#[test]
fn an_account_is_removed_after_it_left_the_file() {
    let mut manager = center(&["a", "b", "c"]);
    let (mut removal, action) = AccountRemoval::begin(&manager, "a");
    assert!(matches!(action, RemovalAction::ClearLive(id) if id == "a"));
    assert!(manager.account("a").is_some());
    assert!(matches!(
        removal.step(&mut manager, RemovalEvent::Cleared(Ok(()))),
        RemovalAction::Save
    ));
    assert!(manager.account("a").is_none());
    assert!(manager.access_token("a").is_none());
    assert!(manager.access_token("b").is_some());
    assert_eq!(manager.default_account_id().as_deref(), Some("c"));
    assert!(matches!(
        removal.step(&mut manager, RemovalEvent::Saved(Ok(()))),
        RemovalAction::Return(Ok(()))
    ));
}

#[test]
fn an_account_that_stays_in_the_file_is_not_removed() {
    let mut manager = center(&["a", "b"]);
    let (mut removal, _) = AccountRemoval::begin(&manager, "a");
    match removal.step(&mut manager, RemovalEvent::Cleared(Err("locked".to_string()))) {
        RemovalAction::Return(Err(error)) => assert_eq!(error.message(), "IO 错误: locked"),
        other => panic!("{other:?}"),
    }
    assert!(manager.account("a").is_some());
    assert!(manager.access_token("a").is_some());
    assert_eq!(manager.default_account_id().as_deref(), Some("a"));
}

#[test]
fn an_account_that_is_not_there_is_not_looked_for_in_the_file() {
    let manager = center(&["a"]);
    let (_, action) = AccountRemoval::begin(&manager, "x");
    assert!(matches!(
        action,
        RemovalAction::Return(Err(CodexOAuthError::AccountNotFound(id))) if id == "x"
    ));
}

#[test]
fn a_failure_to_save_a_removal_is_returned() {
    let mut manager = center(&["a"]);
    let (mut removal, _) = AccountRemoval::begin(&manager, "a");
    removal.step(&mut manager, RemovalEvent::Cleared(Ok(())));
    let failure = RemovalEvent::Saved(Err(CodexOAuthError::IoError("disk".to_string())));
    assert!(matches!(
        removal.step(&mut manager, failure),
        RemovalAction::Return(Err(CodexOAuthError::IoError(_)))
    ));
    assert!(manager.account("a").is_none());
}

#[test]
fn everything_is_cleared_after_every_account_left_the_file() {
    let mut manager = center(&["a", "b", "c"]);
    let epoch = manager.login_epoch();
    let (mut clearing, mut action) = AuthClearing::begin(&mut manager);
    let mut seen = Vec::new();
    while let ClearingAction::ClearLive(id) = action {
        assert_eq!(manager.account_ids().len(), 3);
        seen.push(id);
        action = clearing.step(&mut manager, ClearingEvent::Cleared(Ok(())));
    }
    seen.sort();
    assert_eq!(seen, vec!["a", "b", "c"]);
    assert!(matches!(action, ClearingAction::DeleteStore));
    assert!(!manager.is_authenticated());
    assert!(manager.access_token("b").is_none());
    assert_ne!(manager.login_epoch(), epoch);
    assert!(matches!(
        clearing.step(&mut manager, ClearingEvent::StoreDeleted(Ok(()))),
        ClearingAction::Return(Ok(()))
    ));
}

#[test]
fn nothing_is_cleared_where_an_account_stays_in_the_file() {
    let mut manager = center(&["a", "b"]);
    let epoch = manager.login_epoch();
    let (mut clearing, _) = AuthClearing::begin(&mut manager);
    assert!(matches!(
        clearing.step(&mut manager, ClearingEvent::Cleared(Ok(()))),
        ClearingAction::ClearLive(_)
    ));
    match clearing.step(&mut manager, ClearingEvent::Cleared(Err("locked".to_string()))) {
        ClearingAction::Return(Err(error)) => assert_eq!(error.message(), "IO 错误: locked"),
        other => panic!("{other:?}"),
    }
    assert_eq!(manager.account_ids().len(), 2);
    assert!(manager.access_token("a").is_some());
    assert_eq!(manager.login_epoch(), epoch);
}

#[test]
fn without_accounts_only_the_store_is_deleted() {
    let mut manager = CodexOAuthManager::new();
    let (mut clearing, action) = AuthClearing::begin(&mut manager);
    assert!(matches!(action, ClearingAction::DeleteStore));
    let failure = ClearingEvent::StoreDeleted(Err(CodexOAuthError::IoError("disk".to_string())));
    assert!(matches!(
        clearing.step(&mut manager, failure),
        ClearingAction::Return(Err(CodexOAuthError::IoError(_)))
    ));
}
