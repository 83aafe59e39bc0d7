//! Accounts, their tokens, and what is shown of them.
use crate::claims;
use crate::claims::{DecodedToken, IdTokenClaims};
use crate::clock;
use crate::clock::current_time_ms;
use crate::identity;
use crate::identity::{resolve_account_identity_from, resolve_identity_and_workspace};
use crate::text;
use crate::text::{as_text, copy_text, is_blank, non_empty, to_text, trim};
use vstd::prelude::*;
use vstd::string::*;

verus! {

/// A token is refreshed when it would expire within this many milliseconds.
pub const TOKEN_REFRESH_BUFFER_MS: i64 = 60_000;

/// The tokens in a reply of the authorization server.
#[derive(Debug)]
pub struct OAuthTokenResponse {
    pub access_token: DecodedToken,
    pub refresh_token: Option<String>,
    pub id_token: Option<DecodedToken>,
    pub expires_in: Option<i64>,
}

/// The model of [`OAuthTokenResponse`].
pub struct TokensModel {
    pub access_token: claims::TokenModel,
    pub refresh_token: Option<Seq<char>>,
    pub id_token: Option<claims::TokenModel>,
    pub expires_in: Option<i64>,
}

impl View for OAuthTokenResponse {
    type V = TokensModel;

    open spec fn view(&self) -> TokensModel {
        TokensModel {
            access_token: self.access_token@,
            refresh_token: text::view_opt(self.refresh_token),
            id_token: text::view_opt(self.id_token),
            expires_in: self.expires_in,
        }
    }
}

/// The claims of an optional token.
pub open spec fn claims_of(token: Option<claims::TokenModel>) -> Option<claims::ClaimsModel> {
    match token {
        Some(token) => token.claims,
        None => None,
    }
}

/// Tokens have an account exactly where they name a person or a workspace.
pub proof fn tokens_have_an_account_if_they_name_one(tokens: TokensModel)
    ensures
        tokens.account_id() is Some <==> tokens.identified(),
{
}

impl TokensModel {
    /// The identity that the tokens carry.
    pub open spec fn identity(self) -> identity::IdentityModel {
        identity::identity_of(claims_of(self.id_token), self.access_token.claims)
    }

    /// The workspace that the tokens carry.
    pub open spec fn workspace(self) -> Option<Seq<char>> {
        identity::workspace_of(claims_of(self.id_token), self.access_token.claims)
    }

    /// Whether the tokens name a person or a workspace.
    pub open spec fn identified(self) -> bool {
        ||| identity::names_person(claims_of(self.id_token))
        ||| identity::names_person(self.access_token.claims)
        ||| self.workspace() is Some
    }

    /// The key of the account that the tokens belong to.
    pub open spec fn account_id(self) -> Option<Seq<char>> {
        identity::account_key(self.identity().primary, self.workspace())
    }
}

/// The key, the email and the workspace of the account that `tokens` belong to.
pub fn extract_identity_from_tokens(tokens: &OAuthTokenResponse) -> (result: (
    Option<String>,
    Option<String>,
    Option<String>,
))
    ensures
        text::view_opt(result.0) == tokens@.account_id(),
        text::view_opt(result.1) == tokens@.identity().email,
        text::view_opt(result.2) == tokens@.workspace(),
        match identity::ascii_email_alone(
            claims_of(tokens@.id_token),
            tokens@.access_token.claims,
        ) {
            Some(email) => text::view_opt(result.0) == identity::account_key(
                Some(text::ascii_lowercase(email)),
                tokens@.workspace(),
            ),
            None => true,
        },
{
    let id_claims: Option<&IdTokenClaims> = match &tokens.id_token {
        Some(token) => token.claims(),
        None => None,
    };
    let access_claims = tokens.access_token.claims();
    let (identity, workspace) = resolve_identity_and_workspace(id_claims, access_claims);
    resolve_account_identity_from(&identity, workspace)
}

/// An access token that is kept in memory.
#[derive(Debug)]
pub struct CachedAccessToken {
    pub token: String,
    /// When the token expires, in milliseconds.
    pub expires_at_ms: i64,
    /// When the token was obtained, in milliseconds.
    pub obtained_at_ms: i64,
}

/// The model of [`CachedAccessToken`].
pub struct CachedModel {
    pub token: Seq<char>,
    pub expires_at_ms: i64,
    pub obtained_at_ms: i64,
}

impl View for CachedAccessToken {
    type V = CachedModel;

    open spec fn view(&self) -> CachedModel {
        CachedModel {
            token: self.token@,
            expires_at_ms: self.expires_at_ms,
            obtained_at_ms: self.obtained_at_ms,
        }
    }
}

impl CachedModel {
    /// Whether less than the refresh buffer is left of the token at `now_ms`.
    pub open spec fn expiring_soon(self, now_ms: i64) -> bool {
        self.expires_at_ms - now_ms < TOKEN_REFRESH_BUFFER_MS
    }
}

impl Clone for CachedAccessToken {
    fn clone(&self) -> (result: Self)
        ensures
            result@ == self@,
    {
        CachedAccessToken {
            token: self.token.clone(),
            expires_at_ms: self.expires_at_ms,
            obtained_at_ms: self.obtained_at_ms,
        }
    }
}

impl CachedAccessToken {
    /// Whether less than the refresh buffer is left of the token at `now_ms`.
    pub fn is_expiring_soon_at(&self, now_ms: i64) -> (result: bool)
        ensures
            result == self@.expiring_soon(now_ms),
    {
        self.expires_at_ms as i128 - (now_ms as i128) < TOKEN_REFRESH_BUFFER_MS as i128
    }

    /// Whether less than the refresh buffer is left of the token.
    pub fn is_expiring_soon(&self) -> (result: bool)
        ensures
            exists|now_ms: i64|
                clock::clock_shows_ms(now_ms) && result == #[trigger] self@.expiring_soon(now_ms),
    {
        self.is_expiring_soon_at(current_time_ms())
    }
}

/// An account as it is kept.
#[derive(Debug)]
pub struct CodexAccountData {
    /// The key of the account.
    pub account_id: String,
    pub email: Option<String>,
    /// The workspace.
    pub chatgpt_account_id: Option<String>,
    pub refresh_token: String,
    /// When the user logged in, in seconds.
    pub authenticated_at: i64,
    pub id_token: Option<DecodedToken>,
    /// When the tokens were last obtained, in milliseconds. Not positive where that
    /// is not known.
    pub token_updated_at_ms: i64,
}

/// The model of [`CodexAccountData`].
pub struct AccountModel {
    pub account_id: Seq<char>,
    pub email: Option<Seq<char>>,
    pub chatgpt_account_id: Option<Seq<char>>,
    pub refresh_token: Seq<char>,
    pub authenticated_at: i64,
    pub id_token: Option<claims::TokenModel>,
    pub token_updated_at_ms: i64,
}

impl View for CodexAccountData {
    type V = AccountModel;

    open spec fn view(&self) -> AccountModel {
        AccountModel {
            account_id: self.account_id@,
            email: text::view_opt(self.email),
            chatgpt_account_id: text::view_opt(self.chatgpt_account_id),
            refresh_token: self.refresh_token@,
            authenticated_at: self.authenticated_at,
            id_token: text::view_opt(self.id_token),
            token_updated_at_ms: self.token_updated_at_ms,
        }
    }
}

impl AccountModel {
    /// The workspace that is stored with the account.
    pub open spec fn stored_workspace(self) -> Option<Seq<char>> {
        text::trimmed_non_empty(self.chatgpt_account_id)
    }

    /// The workspace that the ID token names.
    pub open spec fn claimed_workspace(self) -> Option<Seq<char>> {
        identity::workspace_in(claims_of(self.id_token))
    }

    /// The workspace to use: the stored one, or else the one that the ID token
    /// names.
    pub open spec fn effective_workspace(self) -> Option<Seq<char>> {
        text::or_else(self.stored_workspace(), self.claimed_workspace())
    }

    /// The workspace to store after the tokens have changed: the one that the ID
    /// token names, or else the stored one.
    pub open spec fn synced_workspace(self) -> Option<Seq<char>> {
        text::or_else(self.claimed_workspace(), self.stored_workspace())
    }
}

/// A copy of an optional token.
pub(crate) fn copy_token(token: &Option<DecodedToken>) -> (result: Option<DecodedToken>)
    ensures
        text::view_opt(result) == text::view_opt(*token),
{
    match token {
        Some(token) => Some(token.clone()),
        None => None,
    }
}

impl Clone for CodexAccountData {
    fn clone(&self) -> (result: Self)
        ensures
            result@ == self@,
    {
        CodexAccountData {
            account_id: self.account_id.clone(),
            email: copy_text(&self.email),
            chatgpt_account_id: copy_text(&self.chatgpt_account_id),
            refresh_token: self.refresh_token.clone(),
            authenticated_at: self.authenticated_at,
            id_token: copy_token(&self.id_token),
            token_updated_at_ms: self.token_updated_at_ms,
        }
    }
}

impl CodexAccountData {
    /// The workspace that is stored with the account.
    pub fn stored_workspace_id(&self) -> (result: Option<String>)
        ensures
            text::view_opt(result) == self@.stored_workspace(),
    {
        to_text(non_empty(as_text(&self.chatgpt_account_id)))
    }

    /// The workspace that the ID token names.
    pub fn claimed_workspace_id(&self) -> (result: Option<String>)
        ensures
            text::view_opt(result) == self@.claimed_workspace(),
    {
        match &self.id_token {
            Some(token) => match token.claims() {
                Some(claims) => claims.extract_chatgpt_account_id(),
                None => None,
            },
            None => None,
        }
    }

    /// The workspace to use: the stored one, or else the one that the ID token
    /// names.
    pub fn effective_chatgpt_account_id(&self) -> (result: Option<String>)
        ensures
            text::view_opt(result) == self@.effective_workspace(),
    {
        match self.stored_workspace_id() {
            Some(workspace) => Some(workspace),
            None => self.claimed_workspace_id(),
        }
    }

    /// The workspace to store after the tokens have changed: the one that the ID
    /// token names, or else the stored one.
    pub fn synced_chatgpt_account_id(&self) -> (result: Option<String>)
        ensures
            text::view_opt(result) == self@.synced_workspace(),
    {
        match self.claimed_workspace_id() {
            Some(workspace) => Some(workspace),
            None => self.stored_workspace_id(),
        }
    }
}

/// An account as it is shown.
#[derive(Debug)]
pub struct GitHubAccount {
    pub id: String,
    pub login: String,
    pub avatar_url: Option<String>,
    /// When the user logged in, in seconds.
    pub authenticated_at: i64,
    pub github_domain: String,
    /// Whether the user has to log in again to complete the account.
    pub reauth_required: bool,
}

/// The model of [`GitHubAccount`].
pub struct SummaryModel {
    pub id: Seq<char>,
    pub login: Seq<char>,
    pub avatar_url: Option<Seq<char>>,
    pub authenticated_at: i64,
    pub github_domain: Seq<char>,
    pub reauth_required: bool,
}

impl View for GitHubAccount {
    type V = SummaryModel;

    open spec fn view(&self) -> SummaryModel {
        SummaryModel {
            id: self.id@,
            login: self.login@,
            avatar_url: text::view_opt(self.avatar_url),
            authenticated_at: self.authenticated_at,
            github_domain: self.github_domain@,
            reauth_required: self.reauth_required,
        }
    }
}

/// The characters of a workspace that are shown after an email.
pub const SHOWN_WORKSPACE_CHARS: usize = 8;

/// The first characters of `text`, at most as many as are shown of a workspace.
pub open spec fn shortened(text: Seq<char>) -> Seq<char> {
    if text.len() > SHOWN_WORKSPACE_CHARS {
        text.take(SHOWN_WORKSPACE_CHARS as int)
    } else {
        text
    }
}

impl AccountModel {
    /// The name under which the account is shown.
    pub open spec fn login(self) -> Seq<char> {
        match (self.email, self.chatgpt_account_id) {
            (Some(email), Some(workspace)) => if text::blank(workspace) {
                email
            } else {
                email + " ("@ + shortened(text::trimmed(workspace)) + ")"@
            },
            (Some(email), None) => email,
            (None, Some(workspace)) => "ChatGPT ("@ + workspace + ")"@,
            (None, None) => "ChatGPT ("@ + self.account_id + ")"@,
        }
    }

    /// The account as it is shown.
    pub open spec fn summary(self) -> SummaryModel {
        SummaryModel {
            id: self.account_id,
            login: self.login(),
            avatar_url: None,
            authenticated_at: self.authenticated_at,
            github_domain: "github.com"@,
            reauth_required: self.id_token is None,
        }
    }
}

/// `name` with `detail` behind it in brackets.
fn with_detail(name: &str, detail: &str) -> (result: String)
    ensures
        result@ == name@ + " ("@ + detail@ + ")"@,
{
    name.to_owned().concat(" (").concat(detail).concat(")")
}

/// `ChatGPT` with `detail` behind it in brackets.
fn chatgpt_with_detail(detail: &str) -> (result: String)
    ensures
        result@ == "ChatGPT ("@ + detail@ + ")"@,
{
    "ChatGPT (".to_owned().concat(detail).concat(")")
}

/// The first characters of `text`, at most as many as are shown of a workspace.
fn shorten(text: &str) -> (result: &str)
    ensures
        result@ == shortened(text@),
{
    let len: usize = text.unicode_len();
    if len > SHOWN_WORKSPACE_CHARS {
        let result = text.substring_char(0, SHOWN_WORKSPACE_CHARS);
        assert(result@ =~= text@.take(SHOWN_WORKSPACE_CHARS as int));
        result
    } else {
        text
    }
}

impl GitHubAccount {
    /// `data` as it is shown.
    pub fn from_account(data: &CodexAccountData) -> (result: Self)
        ensures
            result@ == data@.summary(),
    {
        let login: String = match (&data.email, &data.chatgpt_account_id) {
            (Some(email), Some(workspace)) => if is_blank(workspace.as_str()) {
                email.clone()
            } else {
                with_detail(email.as_str(), shorten(trim(workspace.as_str())))
            },
            (Some(email), None) => email.clone(),
            (None, Some(workspace)) => chatgpt_with_detail(workspace.as_str()),
            (None, None) => chatgpt_with_detail(data.account_id.as_str()),
        };
        GitHubAccount {
            id: data.account_id.clone(),
            login,
            avatar_url: None,
            authenticated_at: data.authenticated_at,
            github_domain: "github.com".to_owned(),
            reauth_required: data.id_token.is_none(),
        }
    }
}

} // verus!
