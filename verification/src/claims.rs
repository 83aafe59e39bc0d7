//! The claims of an OAuth token.
use crate::text;
use crate::text::{as_text, non_empty, split_once};
use base64::Engine;
use vstd::prelude::*;

verus! {

/// An organization in the claims.
#[derive(Debug)]
pub struct OrgClaim {
    pub id: Option<String>,
}

/// The claims under `https://api.openai.com/auth`.
#[derive(Debug)]
pub struct OpenAiAuthClaim {
    pub chatgpt_account_id: Option<String>,
    pub user_id: Option<String>,
}

/// The claims of a token that name the person and the workspace.
#[derive(Debug)]
pub struct IdTokenClaims {
    pub chatgpt_account_id: Option<String>,
    pub email: Option<String>,
    pub sub: Option<String>,
    pub organizations: Vec<OrgClaim>,
    pub openai_auth: Option<OpenAiAuthClaim>,
}

/// The model of [`OpenAiAuthClaim`].
pub struct AuthModel {
    pub chatgpt_account_id: Option<Seq<char>>,
    pub user_id: Option<Seq<char>>,
}

/// The model of [`IdTokenClaims`].
pub struct ClaimsModel {
    pub chatgpt_account_id: Option<Seq<char>>,
    pub email: Option<Seq<char>>,
    pub sub: Option<Seq<char>>,
    pub organizations: Seq<Option<Seq<char>>>,
    pub openai_auth: Option<AuthModel>,
}

impl View for OrgClaim {
    type V = Option<Seq<char>>;

    open spec fn view(&self) -> Option<Seq<char>> {
        text::view_opt(self.id)
    }
}

impl View for OpenAiAuthClaim {
    type V = AuthModel;

    open spec fn view(&self) -> AuthModel {
        AuthModel {
            chatgpt_account_id: text::view_opt(self.chatgpt_account_id),
            user_id: text::view_opt(self.user_id),
        }
    }
}

impl View for IdTokenClaims {
    type V = ClaimsModel;

    open spec fn view(&self) -> ClaimsModel {
        ClaimsModel {
            chatgpt_account_id: text::view_opt(self.chatgpt_account_id),
            email: text::view_opt(self.email),
            sub: text::view_opt(self.sub),
            organizations: self.organizations@.map_values(|org: OrgClaim| org@),
            openai_auth: text::view_opt(self.openai_auth),
        }
    }
}

impl ClaimsModel {
    /// The workspace that the claims name: the top-level claim, or else the one
    /// under the auth claims, or else the first organization; trimmed, and nothing
    /// where that one is blank.
    pub open spec fn workspace(self) -> Option<Seq<char>> {
        let under_auth = match self.openai_auth {
            Some(auth) => auth.chatgpt_account_id,
            None => None,
        };
        let first_organization = if self.organizations.len() > 0 {
            self.organizations[0]
        } else {
            None
        };
        text::trimmed_non_empty(
            text::or_else(text::or_else(self.chatgpt_account_id, under_auth), first_organization),
        )
    }

    /// The email that the claims name.
    pub open spec fn email_claim(self) -> Option<Seq<char>> {
        text::trimmed_non_empty(self.email)
    }

    /// The user that the auth claims name.
    pub open spec fn user_id_claim(self) -> Option<Seq<char>> {
        text::trimmed_non_empty(
            match self.openai_auth {
                Some(auth) => auth.user_id,
                None => None,
            },
        )
    }

    /// The subject that the claims name.
    pub open spec fn sub_claim(self) -> Option<Seq<char>> {
        text::trimmed_non_empty(self.sub)
    }
}

impl Clone for OrgClaim {
    fn clone(&self) -> (result: Self)
        ensures
            result@ == self@,
    {
        OrgClaim { id: text::copy_text(&self.id) }
    }
}

impl Clone for OpenAiAuthClaim {
    fn clone(&self) -> (result: Self)
        ensures
            result@ == self@,
    {
        OpenAiAuthClaim {
            chatgpt_account_id: text::copy_text(&self.chatgpt_account_id),
            user_id: text::copy_text(&self.user_id),
        }
    }
}

impl Clone for IdTokenClaims {
    fn clone(&self) -> (result: Self)
        ensures
            result@ == self@,
    {
        let mut organizations: Vec<OrgClaim> = Vec::new();
        let mut i: usize = 0;
        while i < self.organizations.len()
            invariant
                i <= self.organizations@.len(),
                organizations@.len() == i,
                forall|j: int|
                    0 <= j < i ==> (#[trigger] organizations@[j])@ == self.organizations@[j]@,
            decreases self.organizations@.len() - i,
        {
            organizations.push(self.organizations[i].clone());
            i += 1;
        }
        let result = IdTokenClaims {
            chatgpt_account_id: text::copy_text(&self.chatgpt_account_id),
            email: text::copy_text(&self.email),
            sub: text::copy_text(&self.sub),
            organizations,
            openai_auth: match &self.openai_auth {
                Some(auth) => Some(auth.clone()),
                None => None,
            },
        };
        assert(result@.organizations =~= self@.organizations);
        result
    }
}

impl IdTokenClaims {
    /// The workspace that the claims name.
    pub fn extract_chatgpt_account_id(&self) -> (result: Option<String>)
        ensures
            text::view_opt(result) == self@.workspace(),
    {
        let named: Option<&str> = match &self.chatgpt_account_id {
            Some(id) => Some(id.as_str()),
            None => match &self.openai_auth {
                Some(auth) => as_text(&auth.chatgpt_account_id),
                None => None,
            },
        };
        let named: Option<&str> = match named {
            Some(id) => Some(id),
            None => if self.organizations.len() > 0 {
                as_text(&self.organizations[0].id)
            } else {
                None
            },
        };
        text::to_text(non_empty(named))
    }

    /// The email that the claims name.
    pub fn email_claim(&self) -> (result: Option<&str>)
        ensures
            text::view_opt(result) == self@.email_claim(),
    {
        non_empty(as_text(&self.email))
    }

    /// The user that the auth claims name.
    pub fn user_id_claim(&self) -> (result: Option<&str>)
        ensures
            text::view_opt(result) == self@.user_id_claim(),
    {
        match &self.openai_auth {
            Some(auth) => non_empty(as_text(&auth.user_id)),
            None => None,
        }
    }

    /// The subject that the claims name.
    pub fn sub_claim(&self) -> (result: Option<&str>)
        ensures
            text::view_opt(result) == self@.sub_claim(),
    {
        non_empty(as_text(&self.sub))
    }
}

/// The bytes that `text` encodes in the URL-safe Base64 alphabet without padding,
/// and nothing where it encodes none.
pub uninterp spec fn url_safe_bytes(text: Seq<char>) -> Option<Seq<u8>>;

/// `base64`'s `URL_SAFE_NO_PAD` engine, `decode`: what it decodes is a function of
/// the text alone.
#[verifier::external_body]
fn decode_url_safe(text: &str) -> (result: Option<Vec<u8>>)
    ensures
        text::view_opt(result) == url_safe_bytes(text@),
{
    base64::engine::general_purpose::URL_SAFE_NO_PAD.decode(text).ok()
}

/// The middle one of the three parts of a token, between its two dots. Nothing
/// where the token has not exactly three parts.
pub open spec fn jwt_middle_part(token: Seq<char>) -> Option<Seq<char>> {
    match text::split_first(token, "."@) {
        Some((_, rest)) => match text::split_first(rest, "."@) {
            Some((middle, signature)) => if text::split_first(signature, "."@) is None {
                Some(middle)
            } else {
                None
            },
            None => None,
        },
        None => None,
    }
}

/// The bytes in which a token carries its claims.
pub open spec fn jwt_payload_bytes(token: Seq<char>) -> Option<Seq<u8>> {
    match jwt_middle_part(token) {
        Some(middle) => url_safe_bytes(middle),
        None => None,
    }
}

/// The middle one of the three parts of a token.
pub fn jwt_payload_text(token: &str) -> (result: Option<&str>)
    ensures
        text::view_opt(result) == jwt_middle_part(token@),
{
    match split_once(token, ".") {
        Some((_, rest)) => match split_once(rest, ".") {
            Some((middle, signature)) => match split_once(signature, ".") {
                Some(_) => None,
                None => Some(middle),
            },
            None => None,
        },
        None => None,
    }
}

/// The bytes in which a token carries its claims; nothing where the token is no
/// JWT.
pub fn jwt_payload(token: &str) -> (result: Option<Vec<u8>>)
    ensures
        text::view_opt(result) == jwt_payload_bytes(token@),
{
    match jwt_payload_text(token) {
        Some(middle) => decode_url_safe(middle),
        None => None,
    }
}

/// A token together with the claims that its payload carries.
#[derive(Debug)]
pub struct DecodedToken {
    text: String,
    claims: Option<IdTokenClaims>,
}

/// The model of [`DecodedToken`].
pub struct TokenModel {
    pub text: Seq<char>,
    pub claims: Option<ClaimsModel>,
}

/// The token `text` whose payload was read as `claims`: a token without a payload
/// has no claims.
pub open spec fn token_with(text: Seq<char>, claims: Option<ClaimsModel>) -> TokenModel {
    TokenModel {
        text,
        claims: if jwt_payload_bytes(text) is Some {
            claims
        } else {
            None
        },
    }
}

impl View for DecodedToken {
    type V = TokenModel;

    closed spec fn view(&self) -> TokenModel {
        TokenModel { text: self.text@, claims: text::view_opt(self.claims) }
    }
}

impl Clone for DecodedToken {
    fn clone(&self) -> (result: Self)
        ensures
            result@ == self@,
    {
        proof {
            use_type_invariant(self);
        }
        DecodedToken {
            text: self.text.clone(),
            claims: match &self.claims {
                Some(claims) => Some(claims.clone()),
                None => None,
            },
        }
    }
}

impl DecodedToken {
    #[verifier::type_invariant]
    spec fn claims_come_from_a_payload(self) -> bool {
        jwt_payload_bytes(self.text@) is None ==> self.claims is None
    }

    /// The token `text`, of whose payload bytes `claims` was read. The claims are
    /// dropped where the token carries no payload to read them from.
    pub fn new(text: String, claims: Option<IdTokenClaims>) -> (result: Self)
        ensures
            result@ == token_with(text@, text::view_opt(claims)),
    {
        let payload = jwt_payload(text.as_str());
        match payload {
            Some(_) => DecodedToken { text, claims },
            None => DecodedToken { text, claims: None },
        }
    }

    /// The text of the token.
    pub fn text(&self) -> (result: &str)
        ensures
            result@ == self@.text,
    {
        self.text.as_str()
    }

    /// The claims of the token.
    pub fn claims(&self) -> (result: Option<&IdTokenClaims>)
        ensures
            text::view_opt(result) == self@.claims,
            jwt_payload_bytes(self@.text) is None ==> result is None,
    {
        proof {
            use_type_invariant(self);
        }
        match &self.claims {
            Some(claims) => Some(claims),
            None => None,
        }
    }
}

} // verus!
