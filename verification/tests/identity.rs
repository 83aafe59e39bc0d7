use base64::engine::general_purpose::URL_SAFE_NO_PAD;
use base64::Engine;
use codex_oauth_auth::account::{
    extract_identity_from_tokens, CodexAccountData, GitHubAccount, OAuthTokenResponse,
};
use codex_oauth_auth::claims::{
    jwt_payload, jwt_payload_text, DecodedToken, IdTokenClaims, OpenAiAuthClaim, OrgClaim,
};
use codex_oauth_auth::identity::{
    compose_primary_account_id, identity_owns_account_id, native_tokens_account_id,
    normalize_email, resolve_account_identity_from, resolve_identity_and_workspace,
    split_composite_account_id, AccountIdentity,
};

fn json(text: &str) -> serde_json::Value {
    serde_json::from_str(text).unwrap()
}

fn text_of(value: &serde_json::Value, name: &str) -> Option<String> {
    value.get(name).and_then(|v| v.as_str()).map(str::to_string)
}

fn claims_of(value: &serde_json::Value) -> IdTokenClaims {
    let organizations = match value.get("organizations").and_then(|v| v.as_array()) {
        Some(list) => list
            .iter()
            .map(|org| OrgClaim {
                id: text_of(org, "id"),
            })
            .collect(),
        None => Vec::new(),
    };
    IdTokenClaims {
        chatgpt_account_id: text_of(value, "chatgpt_account_id"),
        email: text_of(value, "email"),
        sub: text_of(value, "sub"),
        organizations,
        openai_auth: value
            .get("https://api.openai.com/auth")
            .map(|auth| OpenAiAuthClaim {
                chatgpt_account_id: text_of(auth, "chatgpt_account_id"),
                user_id: text_of(auth, "user_id"),
            }),
    }
}

fn parse_jwt_claims(token: &str) -> Option<IdTokenClaims> {
    let bytes = jwt_payload(token)?;
    let value: serde_json::Value = serde_json::from_slice(&bytes).ok()?;
    Some(claims_of(&value))
}

fn decoded(token: &str) -> DecodedToken {
    DecodedToken::new(token.to_string(), parse_jwt_claims(token))
}

fn unsigned_jwt(payload: &str) -> DecodedToken {
    let header = URL_SAFE_NO_PAD.encode(b"{\"alg\":\"none\"}");
    let encoded = URL_SAFE_NO_PAD.encode(serde_json::to_vec(&json(payload)).unwrap());
    decoded(&format!("{header}.{encoded}."))
}

fn no_claims() -> IdTokenClaims {
    IdTokenClaims {
        chatgpt_account_id: None,
        email: None,
        sub: None,
        organizations: Vec::new(),
        openai_auth: None,
    }
}

#[test]
fn test_parse_jwt_claims_invalid() {
    assert!(parse_jwt_claims("not-a-jwt").is_none());
    assert!(parse_jwt_claims("only.two").is_none());
}

#[test]
fn test_parse_jwt_claims_valid() {
    let header = URL_SAFE_NO_PAD.encode(b"{\"alg\":\"none\"}");
    let payload =
        URL_SAFE_NO_PAD.encode(b"{\"chatgpt_account_id\":\"acc-123\",\"email\":\"test@example.com\"}");
    let jwt = format!("{header}.{payload}.");
    let claims = parse_jwt_claims(&jwt).unwrap();
    assert_eq!(claims.chatgpt_account_id.as_deref(), Some("acc-123"));
    assert_eq!(claims.email.as_deref(), Some("test@example.com"));
}

#[test]
fn test_parse_jwt_claims_organizations_fallback() {
    let header = URL_SAFE_NO_PAD.encode(b"{\"alg\":\"none\"}");
    let payload = URL_SAFE_NO_PAD.encode(b"{\"organizations\":[{\"id\":\"org-456\"}]}");
    let jwt = format!("{header}.{payload}.");
    let claims = parse_jwt_claims(&jwt).unwrap();
    assert_eq!(
        claims
            .organizations
            .first()
            .and_then(|o| o.id.clone())
            .as_deref(),
        Some("org-456")
    );
    assert_eq!(
        claims.extract_chatgpt_account_id().as_deref(),
        Some("org-456")
    );
}

#[test]
fn test_extract_identity_from_tokens_priority() {
    let tokens = OAuthTokenResponse {
        access_token: decoded("access"),
        refresh_token: Some("refresh".to_string()),
        id_token: Some(unsigned_jwt(
            r#"{
                "email": "user@example.com",
                "sub": "auth0|12345",
                "chatgpt_account_id": "team-workspace-uuid",
                "https://api.openai.com/auth": {
                    "user_id": "user-abcdef",
                    "chatgpt_account_id": "team-workspace-uuid"
                }
            }"#,
        )),
        expires_in: Some(3600),
    };
    let (account_id, email, chatgpt_account_id) = extract_identity_from_tokens(&tokens);
    assert_eq!(
        account_id.as_deref(),
        Some("user-abcdef::team-workspace-uuid")
    );
    assert_eq!(email.as_deref(), Some("user@example.com"));
    assert_eq!(chatgpt_account_id.as_deref(), Some("team-workspace-uuid"));

    let tokens2 = OAuthTokenResponse {
        access_token: decoded("access"),
        refresh_token: Some("refresh".to_string()),
        id_token: Some(unsigned_jwt(
            r#"{
                "sub": "auth0|12345",
                "https://api.openai.com/auth": {
                    "user_id": "user-abcdef",
                    "chatgpt_account_id": "team-workspace-uuid"
                }
            }"#,
        )),
        expires_in: Some(3600),
    };
    let (account_id2, email2, chatgpt_account_id2) = extract_identity_from_tokens(&tokens2);
    assert_eq!(
        account_id2.as_deref(),
        Some("user-abcdef::team-workspace-uuid")
    );
    assert_eq!(email2, None);
    assert_eq!(chatgpt_account_id2.as_deref(), Some("team-workspace-uuid"));
}

#[test]
fn identity_falls_back_to_access_token_personal_claims_before_workspace() {
    let tokens = OAuthTokenResponse {
        access_token: unsigned_jwt(r#"{ "email": "user@example.com" }"#),
        refresh_token: Some("refresh".to_string()),
        id_token: Some(unsigned_jwt(
            r#"{ "https://api.openai.com/auth": { "chatgpt_account_id": "team-workspace-uuid" } }"#,
        )),
        expires_in: Some(3600),
    };

    let (account_id, email, chatgpt_account_id) = extract_identity_from_tokens(&tokens);
    assert_eq!(
        account_id.as_deref(),
        Some("user@example.com::team-workspace-uuid")
    );
    assert_eq!(email.as_deref(), Some("user@example.com"));
    assert_eq!(chatgpt_account_id.as_deref(), Some("team-workspace-uuid"));
}

#[test]
fn synced_workspace_id_replaces_a_stale_stored_value() {
    let account = CodexAccountData {
        account_id: "user@example.com::old-workspace".to_string(),
        email: Some("user@example.com".to_string()),
        chatgpt_account_id: Some("old-workspace".to_string()),
        refresh_token: "refresh".to_string(),
        authenticated_at: 0,
        id_token: Some(unsigned_jwt(
            r#"{ "email": "user@example.com", "chatgpt_account_id": "new-workspace" }"#,
        )),
        token_updated_at_ms: 0,
    };

    assert_eq!(
        account.effective_chatgpt_account_id().as_deref(),
        Some("old-workspace")
    );
    assert_eq!(
        account.synced_chatgpt_account_id().as_deref(),
        Some("new-workspace")
    );
}

#[test]
fn synced_workspace_id_keeps_stored_value_when_new_token_has_no_claim() {
    let account = CodexAccountData {
        account_id: "user@example.com::workspace".to_string(),
        email: Some("user@example.com".to_string()),
        chatgpt_account_id: Some("workspace".to_string()),
        refresh_token: "refresh".to_string(),
        authenticated_at: 0,
        id_token: Some(unsigned_jwt(r#"{ "email": "user@example.com" }"#)),
        token_updated_at_ms: 0,
    };

    assert_eq!(
        account.synced_chatgpt_account_id().as_deref(),
        Some("workspace")
    );
}

#[test]
fn email_case_does_not_split_one_account_into_two_keys() {
    let make = |email: &str| {
        extract_identity_from_tokens(&OAuthTokenResponse {
            access_token: unsigned_jwt(&format!(
                "{{ \"email\": \"{email}\", \"chatgpt_account_id\": \"workspace\" }}"
            )),
            refresh_token: Some("refresh".to_string()),
            id_token: None,
            expires_in: Some(3600),
        })
        .0
    };

    assert_eq!(
        make("Alice@Example.com").as_deref(),
        make("alice@example.com").as_deref()
    );
    assert_eq!(
        make("Alice@Example.com").as_deref(),
        Some("alice@example.com::workspace")
    );
}

#[test]
fn the_primary_key_ignores_access_token_only_claims() {
    let tokens = OAuthTokenResponse {
        access_token: unsigned_jwt(r#"{ "email": "alice@example.com" }"#),
        refresh_token: Some("refresh".to_string()),
        id_token: Some(unsigned_jwt(
            r#"{ "sub": "auth0|12345", "chatgpt_account_id": "team-workspace-uuid" }"#,
        )),
        expires_in: Some(3600),
    };

    let (account_id, email, chatgpt_account_id) = extract_identity_from_tokens(&tokens);
    assert_eq!(
        account_id.as_deref(),
        Some("auth0|12345::team-workspace-uuid")
    );
    assert_eq!(email.as_deref(), Some("alice@example.com"));
    assert_eq!(chatgpt_account_id.as_deref(), Some("team-workspace-uuid"));
}

#[test]
fn a_payload_is_decoded_with_the_url_safe_alphabet_and_no_padding() {
    assert_eq!(jwt_payload("a.-_8.b"), Some(vec![0xfb, 0xff]));
    assert_eq!(jwt_payload("a.-_8=.b"), None);
    assert_eq!(jwt_payload("a.+/8.b"), None);
    assert_eq!(jwt_payload("a..b"), Some(vec![]));
    assert_eq!(jwt_payload_text("h.p.s"), Some("p"));
    assert_eq!(jwt_payload_text("h.p.s.more"), None);
    assert_eq!(jwt_payload_text("h.p"), None);
    assert_eq!(jwt_payload_text(".."), Some(""));
}

#[test]
fn claims_of_a_text_that_is_no_jwt_are_dropped() {
    let mut claims = no_claims();
    claims.email = Some("a@example.com".to_string());
    let token = DecodedToken::new("opaque".to_string(), Some(claims.clone()));
    assert_eq!(token.text(), "opaque");
    assert!(token.claims().is_none());
    let token = DecodedToken::new("a.e30.b".to_string(), Some(claims));
    assert_eq!(
        token.claims().and_then(|c| c.email_claim()),
        Some("a@example.com")
    );
}

#[test]
fn the_workspace_claim_that_comes_first_counts_even_where_it_is_blank() {
    let mut claims = no_claims();
    assert_eq!(claims.extract_chatgpt_account_id(), None);
    claims.organizations = vec![
        OrgClaim {
            id: Some(" org-1 ".to_string()),
        },
        OrgClaim {
            id: Some("org-2".to_string()),
        },
    ];
    assert_eq!(claims.extract_chatgpt_account_id().as_deref(), Some("org-1"));
    claims.openai_auth = Some(OpenAiAuthClaim {
        chatgpt_account_id: Some("under-auth".to_string()),
        user_id: Some("  ".to_string()),
    });
    assert_eq!(
        claims.extract_chatgpt_account_id().as_deref(),
        Some("under-auth")
    );
    assert_eq!(claims.user_id_claim(), None);
    claims.chatgpt_account_id = Some(" \t".to_string());
    assert_eq!(claims.extract_chatgpt_account_id(), None);
}

#[test]
fn an_email_is_written_in_lower_case() {
    assert_eq!(normalize_email("Straße@EXAMPLE.Com"), "straße@example.com");
    assert_eq!(normalize_email("ΑΣ"), "ας");
    assert_eq!(normalize_email("İ"), "i\u{307}");
}

#[test]
fn every_identifier_of_both_tokens_matches_the_user() {
    let mut id_claims = no_claims();
    id_claims.sub = Some("sub-1".to_string());
    id_claims.email = Some("Alice@Example.com".to_string());
    let mut access_claims = no_claims();
    access_claims.sub = Some("sub-1".to_string());
    access_claims.openai_auth = Some(OpenAiAuthClaim {
        chatgpt_account_id: None,
        user_id: Some("user-1".to_string()),
    });
    let identity = AccountIdentity::from_claims(Some(&id_claims), Some(&access_claims));
    assert_eq!(identity.primary(), Some("sub-1"));
    assert_eq!(identity.email(), Some("Alice@Example.com"));
    assert!(identity.matches_user("sub-1"));
    assert!(identity.matches_user("alice@example.com"));
    assert!(identity.matches_user("user-1"));
    assert!(!identity.matches_user("Alice@Example.com"));
    let nobody = AccountIdentity::from_claims(None, None);
    assert_eq!(nobody.primary(), None);
    assert_eq!(nobody.email(), None);
    assert!(!nobody.matches_user(""));
}

#[test]
fn keys_come_apart_at_the_first_separator() {
    assert_eq!(split_composite_account_id("user::ws"), Some(("user", "ws")));
    assert_eq!(
        split_composite_account_id("user::ws::more"),
        Some(("user", "ws::more"))
    );
    assert_eq!(split_composite_account_id("a:::w"), Some(("a", ":w")));
    assert_eq!(split_composite_account_id("user:ws"), None);
    assert_eq!(split_composite_account_id("::"), Some(("", "")));
}

#[test]
fn a_key_is_made_of_what_is_known() {
    let key = |user: Option<&str>, workspace: Option<&str>| {
        compose_primary_account_id(user.map(str::to_string), workspace.map(str::to_string))
    };
    assert_eq!(key(Some("u"), Some("w")).as_deref(), Some("u::w"));
    assert_eq!(key(Some("u"), None).as_deref(), Some("u"));
    assert_eq!(key(None, Some("w")).as_deref(), Some("w"));
    assert_eq!(key(None, None), None);
    assert_ne!(key(Some("u1"), Some("w")), key(Some("u2"), Some("w")));
    assert_ne!(key(Some("u"), Some("w1")), key(Some("u"), Some("w2")));
}

#[test]
fn a_login_owns_the_account_that_it_makes() {
    let mut claims = no_claims();
    claims.sub = Some("sub-1".to_string());
    claims.chatgpt_account_id = Some("ws".to_string());
    let (identity, workspace) = resolve_identity_and_workspace(Some(&claims), None);
    let (key, email, shown) = resolve_account_identity_from(&identity, workspace.clone());
    assert_eq!(key.as_deref(), Some("sub-1::ws"));
    assert_eq!(email, None);
    assert_eq!(shown.as_deref(), Some("ws"));
    let owns = |claimed: Option<&str>, named: Option<&str>, key: &str| {
        identity_owns_account_id(&identity, claimed, named, key)
    };
    assert!(owns(Some("ws"), None, "sub-1::ws"));
    assert!(owns(None, Some("ws"), "sub-1::ws"));
    assert!(!owns(Some("other"), Some("ws"), "sub-1::ws"));
    assert!(!owns(Some("ws"), None, "sub-2::ws"));
    assert!(owns(Some("ws"), None, "ws"));
    assert!(!owns(Some("other"), Some("ws"), "ws"));
    assert!(owns(None, None, "sub-1"));
    assert!(owns(None, Some("legacy"), "legacy"));
    assert!(!owns(Some("ws"), None, "sub-1"));
}

#[test]
fn the_native_account_is_the_workspace_or_a_plain_key() {
    assert_eq!(native_tokens_account_id(Some("ws"), "u::ws"), "ws");
    assert_eq!(native_tokens_account_id(None, "u::ws"), "");
    assert_eq!(native_tokens_account_id(None, "u"), "u");
}

#[test]
fn an_account_is_shown_by_its_email_and_the_start_of_its_workspace() {
    let shown = |email: Option<&str>, workspace: Option<&str>| {
        GitHubAccount::from_account(&CodexAccountData {
            account_id: "key".to_string(),
            email: email.map(str::to_string),
            chatgpt_account_id: workspace.map(str::to_string),
            refresh_token: "refresh".to_string(),
            authenticated_at: 7,
            id_token: None,
            token_updated_at_ms: 0,
        })
    };
    let account = shown(Some("a@b.c"), Some(" 123456789 "));
    assert_eq!(account.id, "key");
    assert_eq!(account.login, "a@b.c (12345678)");
    assert_eq!(account.avatar_url, None);
    assert_eq!(account.authenticated_at, 7);
    assert_eq!(account.github_domain, "github.com");
    assert!(account.reauth_required);
    assert_eq!(shown(Some("a@b.c"), Some("1234")).login, "a@b.c (1234)");
    assert_eq!(shown(Some("a@b.c"), Some("  ")).login, "a@b.c");
    assert_eq!(shown(Some("a@b.c"), None).login, "a@b.c");
    assert_eq!(
        shown(None, Some("123456789")).login,
        "ChatGPT (123456789)"
    );
    assert_eq!(shown(None, None).login, "ChatGPT (key)");
    assert_eq!(
        shown(Some("a@b.c"), Some("ääääääääö")).login,
        "a@b.c (ääääääää)"
    );
}
