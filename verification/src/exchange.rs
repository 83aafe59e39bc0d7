//! What is sent to the authorization server, and what its replies mean.
use crate::error;
use crate::error::CodexOAuthError;
use crate::json;
use crate::json::extract_refresh_error_code;
use crate::text;
use crate::text::same_text;
use vstd::prelude::*;
use vstd::string::*;

verus! {

/// The OAuth client.
pub const CODEX_CLIENT_ID: &'static str = "app_EMoamEEZ73f0CkXaXp7hrann";

/// Where a device code is requested.
pub const DEVICE_AUTH_USERCODE_URL: &'static str =
    "https://auth.openai.com/api/accounts/deviceauth/usercode";

/// Where a device code is polled.
pub const DEVICE_AUTH_TOKEN_URL: &'static str =
    "https://auth.openai.com/api/accounts/deviceauth/token";

/// Where a code or a refresh token is exchanged for tokens.
pub const OAUTH_TOKEN_URL: &'static str = "https://auth.openai.com/oauth/token";

/// Where the user enters the code.
pub const DEVICE_VERIFICATION_URL: &'static str = "https://auth.openai.com/codex/device";

/// The redirect URI of the device flow.
pub const DEVICE_REDIRECT_URI: &'static str = "https://auth.openai.com/deviceauth/callback";

/// The name under which the requests are sent.
pub const CODEX_USER_AGENT: &'static str = "cc-switch-codex-oauth";

/// The seconds after which a request is given up.
pub const OAUTH_HTTP_TIMEOUT_SECS: u64 = 30;

/// The model of the fields of a request.
pub open spec fn fields(pairs: Seq<(String, String)>) -> Seq<(Seq<char>, Seq<char>)> {
    pairs.map_values(|pair: (String, String)| (pair.0@, pair.1@))
}

/// Adds a field to a request.
fn add_field(pairs: &mut Vec<(String, String)>, name: &str, value: &str)
    ensures
        fields(final(pairs)@) == fields(old(pairs)@).push((name@, value@)),
{
    pairs.push((name.to_owned(), value.to_owned()));
    assert(fields(pairs@) =~= fields(old(pairs)@).push((name@, value@)));
}

/// No field.
fn no_fields() -> (result: Vec<(String, String)>)
    ensures
        fields(result@) == Seq::<(Seq<char>, Seq<char>)>::empty(),
{
    let result: Vec<(String, String)> = Vec::new();
    assert(fields(result@) =~= Seq::<(Seq<char>, Seq<char>)>::empty());
    result
}

/// The fields of the request for a device code.
pub fn device_code_request() -> (result: Vec<(String, String)>)
    ensures
        fields(result@) == seq![("client_id"@, CODEX_CLIENT_ID@)],
{
    let mut pairs = no_fields();
    add_field(&mut pairs, "client_id", CODEX_CLIENT_ID);
    assert(fields(pairs@) =~= seq![("client_id"@, CODEX_CLIENT_ID@)]);
    pairs
}

/// The fields of the request that polls a device code.
pub fn poll_request(device_auth_id: &str, user_code: &str) -> (result: Vec<(String, String)>)
    ensures
        fields(result@) == seq![
            ("device_auth_id"@, device_auth_id@),
            ("user_code"@, user_code@),
        ],
{
    let mut pairs = no_fields();
    add_field(&mut pairs, "device_auth_id", device_auth_id);
    add_field(&mut pairs, "user_code", user_code);
    assert(fields(pairs@) =~= seq![
        ("device_auth_id"@, device_auth_id@),
        ("user_code"@, user_code@),
    ]);
    pairs
}

/// The fields of the request that exchanges a code for tokens.
pub fn code_exchange_request(code: &str, code_verifier: &str) -> (result: Vec<(String, String)>)
    ensures
        fields(result@) == seq![
            ("grant_type"@, "authorization_code"@),
            ("code"@, code@),
            ("redirect_uri"@, DEVICE_REDIRECT_URI@),
            ("client_id"@, CODEX_CLIENT_ID@),
            ("code_verifier"@, code_verifier@),
        ],
{
    let mut pairs = no_fields();
    add_field(&mut pairs, "grant_type", "authorization_code");
    add_field(&mut pairs, "code", code);
    add_field(&mut pairs, "redirect_uri", DEVICE_REDIRECT_URI);
    add_field(&mut pairs, "client_id", CODEX_CLIENT_ID);
    add_field(&mut pairs, "code_verifier", code_verifier);
    assert(fields(pairs@) =~= seq![
        ("grant_type"@, "authorization_code"@),
        ("code"@, code@),
        ("redirect_uri"@, DEVICE_REDIRECT_URI@),
        ("client_id"@, CODEX_CLIENT_ID@),
        ("code_verifier"@, code_verifier@),
    ]);
    pairs
}

/// The fields of the request that exchanges a refresh token for tokens.
pub fn refresh_request(refresh_token: &str) -> (result: Vec<(String, String)>)
    ensures
        fields(result@) == seq![
            ("grant_type"@, "refresh_token"@),
            ("refresh_token"@, refresh_token@),
            ("client_id"@, CODEX_CLIENT_ID@),
            ("scope"@, "openid profile email"@),
        ],
{
    let mut pairs = no_fields();
    add_field(&mut pairs, "grant_type", "refresh_token");
    add_field(&mut pairs, "refresh_token", refresh_token);
    add_field(&mut pairs, "client_id", CODEX_CLIENT_ID);
    add_field(&mut pairs, "scope", "openid profile email");
    assert(fields(pairs@) =~= seq![
        ("grant_type"@, "refresh_token"@),
        ("refresh_token"@, refresh_token@),
        ("client_id"@, CODEX_CLIENT_ID@),
        ("scope"@, "openid profile email"@),
    ]);
    pairs
}

/// Whether an HTTP status reports success.
pub open spec fn success(status: u16) -> bool {
    200 <= status <= 299
}

/// The status and the body of a reply, in one text.
pub open spec fn reply_text(status_text: Seq<char>, body: Seq<char>) -> Seq<char> {
    status_text + " - "@ + body
}

/// The status and the body of a reply, in one text after `prefix`.
fn describe(prefix: &str, status_text: &str, body: &str) -> (result: String)
    ensures
        result@ == prefix@ + reply_text(status_text@, body@),
{
    let result = prefix.to_owned().concat(status_text).concat(" - ").concat(body);
    assert(result@ =~= prefix@ + reply_text(status_text@, body@));
    result
}

/// Whether the reply to the request for a device code is to be read.
pub fn check_device_code_reply(status: u16, status_text: &str, body: &str) -> (result: Result<
    (),
    CodexOAuthError,
>)
    ensures
        error::view_result(result) == if success(status) {
            Ok(())
        } else {
            Err(
                error::ErrorModel::NetworkError(
                    "Device Code 请求失败: "@ + reply_text(status_text@, body@),
                ),
            )
        },
{
    if 200 <= status && status <= 299 {
        Ok(())
    } else {
        Err(CodexOAuthError::NetworkError(describe("Device Code 请求失败: ", status_text, body)))
    }
}

/// What the reply to a poll means: `403` and `404` that the user has not decided
/// yet, `410` that the code has expired, and a success that it is to be read.
pub open spec fn poll_reply(status: u16, status_text: Seq<char>, body: Seq<char>) -> Result<
    (),
    error::ErrorModel,
> {
    if status == 403 || status == 404 {
        Err(error::ErrorModel::AuthorizationPending)
    } else if status == 410 {
        Err(error::ErrorModel::ExpiredToken)
    } else if success(status) {
        Ok(())
    } else {
        Err(error::ErrorModel::TokenFetchFailed(reply_text(status_text, body)))
    }
}

/// Whether the reply to a poll is to be read.
pub fn check_poll_reply(status: u16, status_text: &str, body: &str) -> (result: Result<
    (),
    CodexOAuthError,
>)
    ensures
        error::view_result(result) == poll_reply(status, status_text@, body@),
{
    if status == 403 || status == 404 {
        Err(CodexOAuthError::AuthorizationPending)
    } else if status == 410 {
        Err(CodexOAuthError::ExpiredToken)
    } else if 200 <= status && status <= 299 {
        Ok(())
    } else {
        proof {
            reveal_strlit("");
            assert(""@ + reply_text(status_text@, body@) =~= reply_text(status_text@, body@));
        }
        Err(CodexOAuthError::TokenFetchFailed(describe("", status_text, body)))
    }
}

/// What the reply to the exchange of a code means.
pub open spec fn exchange_reply(status: u16, status_text: Seq<char>, body: Seq<char>) -> Result<
    (),
    error::ErrorModel,
> {
    if success(status) {
        Ok(())
    } else {
        Err(
            error::ErrorModel::TokenFetchFailed(
                "Token 交换失败: "@ + reply_text(status_text, body),
            ),
        )
    }
}

/// Whether the reply to the exchange of a code is to be read.
pub fn check_exchange_reply(status: u16, status_text: &str, body: &str) -> (result: Result<
    (),
    CodexOAuthError,
>)
    ensures
        error::view_result(result) == exchange_reply(status, status_text@, body@),
{
    if 200 <= status && status <= 299 {
        Ok(())
    } else {
        Err(CodexOAuthError::TokenFetchFailed(describe("Token 交换失败: ", status_text, body)))
    }
}

/// Whether an error code says that the refresh token is no longer accepted.
pub open spec fn rejects_refresh_token(code: Option<Seq<char>>) -> bool {
    ||| code == Some("refresh_token_expired"@)
    ||| code == Some("refresh_token_reused"@)
    ||| code == Some("refresh_token_invalidated"@)
}

/// What the reply to a refresh means, when its body carries the error code `code`.
pub open spec fn refresh_reply(
    status: u16,
    status_text: Seq<char>,
    body: Seq<char>,
    code: Option<Seq<char>>,
) -> Result<(), error::ErrorModel> {
    if success(status) {
        Ok(())
    } else if status == 401 || status == 403 || rejects_refresh_token(code) {
        Err(error::ErrorModel::RefreshTokenInvalid)
    } else {
        Err(
            error::ErrorModel::TokenFetchFailed(
                "Refresh 失败: "@ + reply_text(status_text, body),
            ),
        )
    }
}

/// Whether the reply to a refresh is to be read, when its body carries the error
/// code `code`.
pub fn check_refresh_reply_with(
    status: u16,
    status_text: &str,
    body: &str,
    code: Option<&str>,
) -> (result: Result<(), CodexOAuthError>)
    ensures
        error::view_result(result) == refresh_reply(
            status,
            status_text@,
            body@,
            text::view_opt(code),
        ),
{
    if 200 <= status && status <= 299 {
        return Ok(());
    }
    let rejected = match code {
        Some(code) => same_text(code, "refresh_token_expired") || same_text(
            code,
            "refresh_token_reused",
        ) || same_text(code, "refresh_token_invalidated"),
        None => false,
    };
    if status == 401 || status == 403 || rejected {
        Err(CodexOAuthError::RefreshTokenInvalid)
    } else {
        Err(CodexOAuthError::TokenFetchFailed(describe("Refresh 失败: ", status_text, body)))
    }
}

/// Whether the reply to a refresh is to be read.
pub fn check_refresh_reply(status: u16, status_text: &str, body: &str) -> (result: Result<
    (),
    CodexOAuthError,
>)
    ensures
        error::view_result(result) == refresh_reply(
            status,
            status_text@,
            body@,
            json::error_code_of(json::json_text(body@)),
        ),
{
    let code = extract_refresh_error_code(body);
    check_refresh_reply_with(status, status_text, body, text::as_text(&code))
}

} // verus!
