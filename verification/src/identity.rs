//! Who an account belongs to, and the key under which it is kept.
use crate::claims;
use crate::claims::IdTokenClaims;
use crate::text;
use crate::text::{same_opt, same_text, split_once};
use vstd::prelude::*;
use vstd::string::*;

verus! {

/// What separates the person from the workspace in the key of an account.
pub const ACCOUNT_ID_SEPARATOR: &'static str = "::";

/// All that the claims of a login say about the person.
#[derive(Debug)]
pub struct AccountIdentity {
    primary: Option<String>,
    candidates: Vec<String>,
    email: Option<String>,
}

/// The model of [`AccountIdentity`].
pub struct IdentityModel {
    /// The personal identifier that goes into the key of the account.
    pub primary: Option<Seq<char>>,
    /// Every personal identifier in the two tokens, each of them once.
    pub candidates: Seq<Seq<char>>,
    /// The email to show.
    pub email: Option<Seq<char>>,
}

impl View for AccountIdentity {
    type V = IdentityModel;

    closed spec fn view(&self) -> IdentityModel {
        IdentityModel {
            primary: text::view_opt(self.primary),
            candidates: text::texts(self.candidates@),
            email: text::view_opt(self.email),
        }
    }
}

/// The sequence of what is there.
pub open spec fn present(value: Option<Seq<char>>) -> Seq<Seq<char>> {
    match value {
        Some(inner) => seq![inner],
        None => seq![],
    }
}

/// The personal identifiers in `claims`, the most lasting one first: the user, the
/// subject, and the email in lower case.
pub open spec fn personal_ids(claims: Option<claims::ClaimsModel>) -> Seq<Seq<char>> {
    match claims {
        Some(claims) => {
            let email = match claims.email_claim() {
                Some(email) => Some(text::lower_case(email)),
                None => None,
            };
            present(claims.user_id_claim()) + present(claims.sub_claim()) + present(email)
        },
        None => seq![],
    }
}

/// The first of `values`.
pub open spec fn first_of(values: Seq<Seq<char>>) -> Option<Seq<char>> {
    if values.len() > 0 {
        Some(values[0])
    } else {
        None
    }
}

/// `values` without those that stand earlier already.
pub open spec fn distinct(values: Seq<Seq<char>>) -> Seq<Seq<char>>
    decreases values.len(),
{
    if values.len() == 0 {
        seq![]
    } else {
        let before = distinct(values.drop_last());
        if before.contains(values.last()) {
            before
        } else {
            before.push(values.last())
        }
    }
}

/// The email in `claims`.
pub open spec fn email_in(claims: Option<claims::ClaimsModel>) -> Option<Seq<char>> {
    match claims {
        Some(claims) => claims.email_claim(),
        None => None,
    }
}

/// The workspace in `claims`.
pub open spec fn workspace_in(claims: Option<claims::ClaimsModel>) -> Option<Seq<char>> {
    match claims {
        Some(claims) => claims.workspace(),
        None => None,
    }
}

/// The identity in the claims of an ID token and of an access token. The key takes
/// its identifier from the ID token, and from the access token only where the ID
/// token holds no identifier at all.
pub open spec fn identity_of(
    id_claims: Option<claims::ClaimsModel>,
    access_claims: Option<claims::ClaimsModel>,
) -> IdentityModel {
    IdentityModel {
        primary: text::or_else(
            first_of(personal_ids(id_claims)),
            first_of(personal_ids(access_claims)),
        ),
        candidates: distinct(personal_ids(id_claims) + personal_ids(access_claims)),
        email: text::or_else(email_in(id_claims), email_in(access_claims)),
    }
}

/// Whether `claims` name a person.
pub open spec fn names_person(claims: Option<claims::ClaimsModel>) -> bool {
    match claims {
        Some(claims) => {
            ||| claims.user_id_claim() is Some
            ||| claims.sub_claim() is Some
            ||| claims.email_claim() is Some
        },
        None => false,
    }
}

/// The email that is all that the deciding token names of the person, where it
/// holds ASCII characters alone. The ID token decides, and the access token only
/// where the ID token names no person.
pub open spec fn ascii_email_alone(
    id_claims: Option<claims::ClaimsModel>,
    access_claims: Option<claims::ClaimsModel>,
) -> Option<Seq<char>> {
    let deciding = if names_person(id_claims) {
        id_claims
    } else {
        access_claims
    };
    match deciding {
        Some(claims) => match (
            claims.user_id_claim(),
            claims.sub_claim(),
            claims.email_claim(),
        ) {
            (None, None, Some(email)) => if text::all_ascii(email) {
                Some(email)
            } else {
                None
            },
            _ => None,
        },
        None => None,
    }
}

/// The workspace in the claims of an ID token, or else in those of an access
/// token.
pub open spec fn workspace_of(
    id_claims: Option<claims::ClaimsModel>,
    access_claims: Option<claims::ClaimsModel>,
) -> Option<Seq<char>> {
    text::or_else(workspace_in(id_claims), workspace_in(access_claims))
}

/// The key of an account: the person and the workspace, or the one of them that is
/// known.
pub open spec fn account_key(
    user: Option<Seq<char>>,
    workspace: Option<Seq<char>>,
) -> Option<Seq<char>> {
    match (user, workspace) {
        (Some(user), Some(workspace)) => Some(user + ACCOUNT_ID_SEPARATOR@ + workspace),
        (Some(user), None) => Some(user),
        (None, Some(workspace)) => Some(workspace),
        (None, None) => None,
    }
}

/// The person and the workspace in the key of an account, where it names both.
pub open spec fn key_parts(account_id: Seq<char>) -> Option<(Seq<char>, Seq<char>)> {
    text::split_first(account_id, ACCOUNT_ID_SEPARATOR@)
}

/// Whether the claims with this identity and workspace belong to `account_id`.
pub open spec fn owns(
    identity: IdentityModel,
    claims_workspace: Option<Seq<char>>,
    tokens_account_id: Option<Seq<char>>,
    account_id: Seq<char>,
) -> bool {
    match key_parts(account_id) {
        Some((user, workspace)) => {
            &&& identity.candidates.contains(user)
            &&& text::or_else(claims_workspace, tokens_account_id) == Some(workspace)
        },
        None => {
            ||| claims_workspace == Some(account_id)
            ||| claims_workspace is None && (identity.candidates.contains(account_id)
                || tokens_account_id == Some(account_id))
        },
    }
}

/// What stands as the account in the native credentials file.
pub open spec fn native_account(
    chatgpt_account_id: Option<Seq<char>>,
    account_id: Seq<char>,
) -> Seq<char> {
    match chatgpt_account_id {
        Some(workspace) => workspace,
        None => if key_parts(account_id) is Some {
            seq![]
        } else {
            account_id
        },
    }
}

/// An email in the one spelling that identifies it.
pub fn normalize_email(email: &str) -> (result: String)
    ensures
        result@ == text::lower_case(email@),
{
    email.to_lowercase()
}

/// Whether `value` is one of `values`.
fn contains_text(values: &Vec<String>, value: &str) -> (result: bool)
    ensures
        result == text::texts(values@).contains(value@),
{
    let mut i: usize = 0;
    while i < values.len()
        invariant
            i <= values@.len(),
            forall|j: int| 0 <= j < i ==> (#[trigger] values@[j])@ != value@,
        decreases values@.len() - i,
    {
        if same_text(values[i].as_str(), value) {
            assert(text::texts(values@)[i as int] == value@);
            return true;
        }
        i += 1;
    }
    false
}

/// Adds the identifiers in `claims` that are not among the candidates yet, and
/// returns the first identifier in `claims`.
fn collect_ids(candidates: &mut Vec<String>, claims: Option<&IdTokenClaims>) -> (best: Option<
    String,
>)
    ensures
        forall|seen: Seq<Seq<char>>|
            text::texts(old(candidates)@) == #[trigger] distinct(seen) ==> text::texts(
                final(candidates)@,
            ) == distinct(seen + personal_ids(text::view_opt(claims))),
        text::view_opt(best) == first_of(personal_ids(text::view_opt(claims))),
{
    match claims {
        Some(claims) => {
            let user = text::to_text(claims.user_id_claim());
            let sub = text::to_text(claims.sub_claim());
            let email = match claims.email_claim() {
                Some(email) => Some(normalize_email(email)),
                None => None,
            };
            let ghost start = text::texts(candidates@);
            let ghost ids = personal_ids(Some(claims@));
            let ghost a = present(text::view_opt(user));
            let ghost b = present(text::view_opt(sub));
            let ghost c = present(text::view_opt(email));
            assert(ids == a + b + c);
            add_candidate(candidates, &user);
            add_candidate(candidates, &sub);
            add_candidate(candidates, &email);
            proof {
                assert forall|seen: Seq<Seq<char>>| start == #[trigger] distinct(seen) implies
                    text::texts(candidates@) == distinct(seen + ids) by {
                    assert(seen + ids == seen + a + b + c);
                }
            }
            match user {
                Some(user) => Some(user),
                None => match sub {
                    Some(sub) => Some(sub),
                    None => email,
                },
            }
        },
        None => {
            assert forall|seen: Seq<Seq<char>>|
                text::texts(candidates@) == #[trigger] distinct(seen) implies text::texts(
                candidates@,
            ) == distinct(seen + personal_ids(None)) by {
                assert(seen + personal_ids(None) == seen);
            }
            None
        },
    }
}

/// Adds `value` to the candidates where it is not among them yet.
fn add_candidate(candidates: &mut Vec<String>, value: &Option<String>)
    ensures
        forall|seen: Seq<Seq<char>>|
            text::texts(old(candidates)@) == #[trigger] distinct(seen) ==> text::texts(
                final(candidates)@,
            ) == distinct(seen + present(text::view_opt(*value))),
{
    let ghost start = text::texts(candidates@);
    match value {
        Some(inner) => {
            if !contains_text(candidates, inner.as_str()) {
                candidates.push(inner.clone());
                assert(text::texts(candidates@) =~= start.push(inner@));
            }
            proof {
                assert forall|seen: Seq<Seq<char>>| start == #[trigger] distinct(seen) implies
                    text::texts(candidates@) == distinct(seen + seq![inner@]) by {
                    let longer = seen + seq![inner@];
                    assert(longer.drop_last() == seen);
                    assert(longer.last() == inner@);
                }
            }
        },
        None => {
            assert forall|seen: Seq<Seq<char>>| start == #[trigger] distinct(seen) implies
                text::texts(candidates@) == distinct(seen + Seq::<Seq<char>>::empty()) by {
                assert(seen + Seq::<Seq<char>>::empty() == seen);
            }
        },
    }
}

impl AccountIdentity {
    /// The identity in the claims of an ID token and of an access token. An email
    /// that is all they name of the person stands in lower case.
    pub fn from_claims(
        id_claims: Option<&IdTokenClaims>,
        access_claims: Option<&IdTokenClaims>,
    ) -> (result: Self)
        ensures
            result@ == identity_of(text::view_opt(id_claims), text::view_opt(access_claims)),
            match ascii_email_alone(text::view_opt(id_claims), text::view_opt(access_claims)) {
                Some(email) => result@.primary == Some(text::ascii_lowercase(email)),
                None => true,
            },
    {
        let mut candidates: Vec<String> = Vec::new();
        let ghost none: Seq<Seq<char>> = seq![];
        assert(text::texts(candidates@) =~= distinct(none));
        let from_id_token = collect_ids(&mut candidates, id_claims);
        let from_access_token = collect_ids(&mut candidates, access_claims);
        assert(none + personal_ids(text::view_opt(id_claims)) =~= personal_ids(
            text::view_opt(id_claims),
        ));
        let id_email: Option<&str> = match id_claims {
            Some(claims) => claims.email_claim(),
            None => None,
        };
        let email: Option<&str> = match id_email {
            Some(email) => Some(email),
            None => match access_claims {
                Some(claims) => claims.email_claim(),
                None => None,
            },
        };
        AccountIdentity {
            primary: match from_id_token {
                Some(id) => Some(id),
                None => from_access_token,
            },
            candidates,
            email: text::to_text(email),
        }
    }

    /// Whether `user` is the person that the claims describe.
    pub fn matches_user(&self, user: &str) -> (result: bool)
        ensures
            result == self@.candidates.contains(user@),
    {
        contains_text(&self.candidates, user)
    }

    /// The personal identifier that goes into the key of the account.
    pub fn primary(&self) -> (result: Option<&str>)
        ensures
            text::view_opt(result) == self@.primary,
    {
        text::as_text(&self.primary)
    }

    /// The email to show.
    pub fn email(&self) -> (result: Option<&str>)
        ensures
            text::view_opt(result) == self@.email,
    {
        text::as_text(&self.email)
    }
}

/// The person and the workspace in the key of an account; nothing for a key that
/// does not name both.
pub fn split_composite_account_id(account_id: &str) -> (result: Option<(&str, &str)>)
    ensures
        match result {
            Some(parts) => key_parts(account_id@) == Some((parts.0@, parts.1@)),
            None => key_parts(account_id@) is None,
        },
{
    split_once(account_id, ACCOUNT_ID_SEPARATOR)
}

/// Whether claims with this identity and this workspace belong to `account_id`.
///
/// A key that names a person and a workspace needs both: the person among the
/// candidates, and the workspace in the claims or, where those name none, in the
/// account of the tokens. Any other key is either a workspace or a person without
/// one, and both readings count.
pub fn identity_owns_account_id(
    identity: &AccountIdentity,
    claims_workspace_id: Option<&str>,
    tokens_account_id: Option<&str>,
    account_id: &str,
) -> (result: bool)
    ensures
        result == owns(
            identity@,
            text::view_opt(claims_workspace_id),
            text::view_opt(tokens_account_id),
            account_id@,
        ),
{
    match split_composite_account_id(account_id) {
        Some((user, workspace)) => {
            let named: Option<&str> = match claims_workspace_id {
                Some(id) => Some(id),
                None => tokens_account_id,
            };
            identity.matches_user(user) && same_opt(named, Some(workspace))
        },
        None => {
            same_opt(claims_workspace_id, Some(account_id)) || (claims_workspace_id.is_none() && (
            identity.matches_user(account_id) || same_opt(tokens_account_id, Some(account_id))))
        },
    }
}

/// What stands as the account in the native credentials file: the workspace, or
/// else the key of the account where it does not name a person and a workspace.
pub fn native_tokens_account_id<'a>(
    chatgpt_account_id: Option<&'a str>,
    account_id: &'a str,
) -> (result: &'a str)
    ensures
        result@ == native_account(text::view_opt(chatgpt_account_id), account_id@),
{
    match chatgpt_account_id {
        Some(workspace) => workspace,
        None => match split_composite_account_id(account_id) {
            Some(_) => {
                proof {
                    reveal_strlit("");
                }
                ""
            },
            None => account_id,
        },
    }
}

/// The key of an account: the person and the workspace, or the one of them that is
/// known.
pub fn compose_primary_account_id(
    user_identity: Option<String>,
    chatgpt_account_id: Option<String>,
) -> (result: Option<String>)
    ensures
        text::view_opt(result) == account_key(
            text::view_opt(user_identity),
            text::view_opt(chatgpt_account_id),
        ),
{
    match (user_identity, chatgpt_account_id) {
        (Some(user), Some(workspace)) => {
            let key = user.concat(ACCOUNT_ID_SEPARATOR).concat(workspace.as_str());
            Some(key)
        },
        (Some(user), None) => Some(user),
        (None, Some(workspace)) => Some(workspace),
        (None, None) => None,
    }
}

/// The key, the email and the workspace of the account with this identity and this
/// workspace.
pub fn resolve_account_identity_from(
    identity: &AccountIdentity,
    chatgpt_account_id: Option<String>,
) -> (result: (Option<String>, Option<String>, Option<String>))
    ensures
        text::view_opt(result.0) == account_key(
            identity@.primary,
            text::view_opt(chatgpt_account_id),
        ),
        text::view_opt(result.1) == identity@.email,
        text::view_opt(result.2) == text::view_opt(chatgpt_account_id),
{
    let account_id = compose_primary_account_id(
        text::copy_text(&identity.primary),
        text::copy_text(&chatgpt_account_id),
    );
    (account_id, text::copy_text(&identity.email), chatgpt_account_id)
}

/// The identity and the workspace in the claims of an ID token and of an access
/// token.
pub fn resolve_identity_and_workspace(
    id_claims: Option<&IdTokenClaims>,
    access_claims: Option<&IdTokenClaims>,
) -> (result: (AccountIdentity, Option<String>))
    ensures
        result.0@ == identity_of(text::view_opt(id_claims), text::view_opt(access_claims)),
        text::view_opt(result.1) == workspace_of(
            text::view_opt(id_claims),
            text::view_opt(access_claims),
        ),
        match ascii_email_alone(text::view_opt(id_claims), text::view_opt(access_claims)) {
            Some(email) => result.0@.primary == Some(text::ascii_lowercase(email)),
            None => true,
        },
{
    let identity = AccountIdentity::from_claims(id_claims, access_claims);
    let from_id_token: Option<String> = match id_claims {
        Some(claims) => claims.extract_chatgpt_account_id(),
        None => None,
    };
    let workspace: Option<String> = match from_id_token {
        Some(workspace) => Some(workspace),
        None => match access_claims {
            Some(claims) => claims.extract_chatgpt_account_id(),
            None => None,
        },
    };
    (identity, workspace)
}

} // verus!
