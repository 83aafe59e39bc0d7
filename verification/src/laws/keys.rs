//! Keys of accounts and the people and workspaces that they stand for.
use crate::account;
use crate::claims;
use crate::identity;
use crate::laws::texts;
use crate::text;
use vstd::prelude::*;

verus! {

/// Whether `user` can stand before the separator of a key without being mistaken:
/// it holds no separator, and does not end in half of one.
pub open spec fn stands_before_separator(user: Seq<char>) -> bool {
    &&& !text::occurs(user, identity::ACCOUNT_ID_SEPARATOR@)
    &&& user.len() > 0 ==> user.last() != ':'
}

/// The key of a person in a workspace.
pub open spec fn composite_key(user: Seq<char>, workspace: Seq<char>) -> Seq<char> {
    user + identity::ACCOUNT_ID_SEPARATOR@ + workspace
}

/// Two people in one workspace never share a key.
pub proof fn members_of_one_workspace_have_different_keys(
    first: Seq<char>,
    second: Seq<char>,
    workspace: Seq<char>,
)
    requires
        first != second,
    ensures
        identity::account_key(Some(first), Some(workspace)) != identity::account_key(
            Some(second),
            Some(workspace),
        ),
{
    let a = composite_key(first, workspace);
    let b = composite_key(second, workspace);
    let rest = identity::ACCOUNT_ID_SEPARATOR@.len() + workspace.len();
    assert(a.len() == first.len() + rest);
    assert(b.len() == second.len() + rest);
    if a == b {
        assert(a.take(first.len() as int) =~= first);
        assert(b.take(first.len() as int) =~= second);
    }
}

/// One person never has the same key in two workspaces.
pub proof fn workspaces_of_one_person_have_different_keys(
    user: Seq<char>,
    first: Seq<char>,
    second: Seq<char>,
)
    requires
        first != second,
    ensures
        identity::account_key(Some(user), Some(first)) != identity::account_key(
            Some(user),
            Some(second),
        ),
{
    let a = composite_key(user, first);
    let b = composite_key(user, second);
    let start = (user + identity::ACCOUNT_ID_SEPARATOR@).len() as int;
    if a == b {
        assert(a.skip(start) =~= first);
        assert(b.skip(start) =~= second);
    }
}

/// The first separator in the key of a person and a workspace is the one between
/// them.
proof fn lemma_first_separator(user: Seq<char>, workspace: Seq<char>)
    requires
        stands_before_separator(user),
    ensures
        text::find_from(
            composite_key(user, workspace),
            identity::ACCOUNT_ID_SEPARATOR@,
            0,
        ) == Some(user.len() as int),
{
    reveal_strlit("::");
    let separator = identity::ACCOUNT_ID_SEPARATOR@;
    let key = composite_key(user, workspace);
    let at = user.len() as int;
    assert(separator.len() == 2 && separator[0] == ':' && separator[1] == ':');
    assert(key.subrange(at, at + 2) =~= separator);
    assert(text::occurs_at(key, separator, at));
    assert forall|i: int| 0 <= i < at implies !text::occurs_at(key, separator, i) by {
        if text::occurs_at(key, separator, i) {
            assert(key.subrange(i, i + 2)[0] == key[i]);
            assert(key.subrange(i, i + 2)[1] == key[i + 1]);
            if i + 2 <= user.len() {
                assert(user.subrange(i, i + 2) =~= key.subrange(i, i + 2));
                assert(text::occurs_at(user, separator, i));
            } else {
                assert(user.last() == key[i]);
            }
        }
    }
    text::lemma_first_is_found(key, separator, at);
}

/// A key that was made of a person and a workspace comes apart into the same two.
pub proof fn keys_come_apart_again(user: Seq<char>, workspace: Seq<char>)
    requires
        stands_before_separator(user),
    ensures
        identity::key_parts(composite_key(user, workspace)) == Some((user, workspace)),
        identity::account_key(Some(user), Some(workspace)) == Some(composite_key(user, workspace)),
{
    lemma_first_separator(user, workspace);
    let key = composite_key(user, workspace);
    reveal_strlit("::");
    assert(key.take(user.len() as int) =~= user);
    assert(key.skip(user.len() as int + 2) =~= workspace);
}

/// Different pairs of a person and a workspace have different keys.
pub proof fn different_pairs_have_different_keys(
    first_user: Seq<char>,
    first_workspace: Seq<char>,
    second_user: Seq<char>,
    second_workspace: Seq<char>,
)
    requires
        stands_before_separator(first_user),
        stands_before_separator(second_user),
        (first_user, first_workspace) != (second_user, second_workspace),
    ensures
        identity::account_key(Some(first_user), Some(first_workspace)) != identity::account_key(
            Some(second_user),
            Some(second_workspace),
        ),
{
    keys_come_apart_again(first_user, first_workspace);
    keys_come_apart_again(second_user, second_workspace);
}

/// `distinct` keeps every value, and each of them once.
proof fn lemma_distinct(values: Seq<Seq<char>>)
    ensures
        identity::distinct(values).no_duplicates(),
        forall|value: Seq<char>| #[trigger]
            values.contains(value) <==> identity::distinct(values).contains(value),
    decreases values.len(),
{
    if values.len() > 0 {
        lemma_distinct(values.drop_last());
        let before = identity::distinct(values.drop_last());
        let after = identity::distinct(values);
        let last = values.last();
        assert(values =~= values.drop_last().push(last));
        assert forall|value: Seq<char>| #[trigger] values.contains(value) <==> after.contains(
            value,
        ) by {
            assert(values.drop_last().contains(value) <==> before.contains(value));
            if values.contains(value) {
                let i = values.index_of(value);
                if i < values.len() - 1 {
                    assert(values.drop_last()[i] == value);
                    assert(values.drop_last().contains(value));
                    let j = before.index_of(value);
                    assert(after[j] == value);
                } else if !before.contains(last) {
                    assert(after.last() == last);
                }
            }
            if after.contains(value) {
                let j = after.index_of(value);
                if j < before.len() {
                    assert(before[j] == value);
                    assert(before.contains(value));
                    let i = values.drop_last().index_of(value);
                    assert(values[i] == value);
                } else {
                    assert(value == last);
                    assert(values[values.len() - 1] == value);
                }
            }
        }
    }
}

/// Every personal identifier in the two tokens is a candidate, each of them once,
/// and nothing else is.
pub proof fn candidates_are_the_personal_identifiers(
    id_claims: Option<claims::ClaimsModel>,
    access_claims: Option<claims::ClaimsModel>,
)
    ensures
        identity::identity_of(id_claims, access_claims).candidates.no_duplicates(),
        forall|value: Seq<char>| #[trigger]
            identity::identity_of(id_claims, access_claims).candidates.contains(value)
                <==> identity::personal_ids(id_claims).contains(value) || identity::personal_ids(
                access_claims,
            ).contains(value),
{
    let a = identity::personal_ids(id_claims);
    let b = identity::personal_ids(access_claims);
    lemma_distinct(a + b);
    assert forall|value: Seq<char>| #[trigger]
        (a + b).contains(value) <==> a.contains(value) || b.contains(value) by {
        if a.contains(value) {
            let i = a.index_of(value);
            assert((a + b)[i] == value);
        }
        if b.contains(value) {
            let i = b.index_of(value);
            assert((a + b)[a.len() + i] == value);
        }
    }
    assert forall|value: Seq<char>| #[trigger]
        identity::identity_of(id_claims, access_claims).candidates.contains(value) <==> a.contains(
            value,
        ) || b.contains(value) by {
        assert((a + b).contains(value) <==> identity::distinct(a + b).contains(value));
    }
}

/// The identifier in the key is one of the candidates.
pub proof fn the_primary_identifier_is_a_candidate(
    id_claims: Option<claims::ClaimsModel>,
    access_claims: Option<claims::ClaimsModel>,
)
    ensures
        match identity::identity_of(id_claims, access_claims).primary {
            Some(user) => identity::identity_of(id_claims, access_claims).candidates.contains(user),
            None => identity::identity_of(id_claims, access_claims).candidates.len() == 0,
        },
{
    let a = identity::personal_ids(id_claims);
    let b = identity::personal_ids(access_claims);
    candidates_are_the_personal_identifiers(id_claims, access_claims);
    if a.len() > 0 {
        assert(a.contains(a[0]));
    } else if b.len() > 0 {
        assert(b.contains(b[0]));
    } else {
        let candidates = identity::identity_of(id_claims, access_claims).candidates;
        if candidates.len() > 0 {
            assert(candidates.contains(candidates[0]));
        }
    }
}

/// Whether the key of this person in this workspace can be told from other kinds of
/// keys.
pub open spec fn key_is_clear(user: Option<Seq<char>>, workspace: Option<Seq<char>>) -> bool {
    match (user, workspace) {
        (Some(user), _) => stands_before_separator(user),
        (None, Some(workspace)) => !text::occurs(workspace, identity::ACCOUNT_ID_SEPARATOR@),
        (None, None) => true,
    }
}

/// A text without the separator is no key of a person and a workspace.
proof fn lemma_no_parts(key: Seq<char>)
    requires
        !text::occurs(key, identity::ACCOUNT_ID_SEPARATOR@),
    ensures
        identity::key_parts(key) is None,
{
    text::lemma_find_from(key, identity::ACCOUNT_ID_SEPARATOR@, 0);
}

/// The tokens of a login belong to the account that the login makes, whatever
/// account the credentials file names beside them.
pub proof fn a_login_owns_its_account(
    id_claims: Option<claims::ClaimsModel>,
    access_claims: Option<claims::ClaimsModel>,
    tokens_account_id: Option<Seq<char>>,
)
    requires
        key_is_clear(
            identity::identity_of(id_claims, access_claims).primary,
            identity::workspace_of(id_claims, access_claims),
        ),
    ensures
        ({
            let owner = identity::identity_of(id_claims, access_claims);
            let workspace = identity::workspace_of(id_claims, access_claims);
            match identity::account_key(owner.primary, workspace) {
                Some(key) => identity::owns(owner, workspace, tokens_account_id, key),
                None => true,
            }
        }),
{
    let owner = identity::identity_of(id_claims, access_claims);
    the_primary_identifier_is_a_candidate(id_claims, access_claims);
    match (owner.primary, identity::workspace_of(id_claims, access_claims)) {
        (Some(user), Some(workspace)) => {
            keys_come_apart_again(user, workspace);
        },
        (Some(user), None) => {
            lemma_no_parts(user);
        },
        (None, Some(workspace)) => {
            lemma_no_parts(workspace);
        },
        (None, None) => {},
    }
}

/// The tokens of somebody else in the same workspace do not belong to the account.
pub proof fn another_member_does_not_own_the_account(
    owner: identity::IdentityModel,
    user: Seq<char>,
    workspace: Seq<char>,
    claims_workspace: Option<Seq<char>>,
    tokens_account_id: Option<Seq<char>>,
)
    requires
        stands_before_separator(user),
        !owner.candidates.contains(user),
    ensures
        !identity::owns(
            owner,
            claims_workspace,
            tokens_account_id,
            composite_key(user, workspace),
        ),
{
    keys_come_apart_again(user, workspace);
}

/// The tokens of one person in another workspace do not belong to the account.
pub proof fn another_workspace_does_not_own_the_account(
    owner: identity::IdentityModel,
    user: Seq<char>,
    workspace: Seq<char>,
    other_workspace: Seq<char>,
    tokens_account_id: Option<Seq<char>>,
)
    requires
        stands_before_separator(user),
        workspace != other_workspace,
    ensures
        !identity::owns(
            owner,
            Some(other_workspace),
            tokens_account_id,
            composite_key(user, workspace),
        ),
{
    keys_come_apart_again(user, workspace);
}

/// The account in the native credentials file is the workspace where there is one,
/// and never a key that names a person and a workspace otherwise.
pub proof fn the_native_account_is_no_composite_key(
    chatgpt_account_id: Option<Seq<char>>,
    account_id: Seq<char>,
)
    ensures
        match chatgpt_account_id {
            Some(workspace) => identity::native_account(chatgpt_account_id, account_id)
                == workspace,
            None => identity::key_parts(
                identity::native_account(chatgpt_account_id, account_id),
            ) is None,
        },
{
    reveal_strlit("::");
    assert(identity::ACCOUNT_ID_SEPARATOR@.len() == 2);
}

/// Two tokens that differ in the case of the email alone name the same person.
pub proof fn the_case_of_an_email_does_not_matter(
    first: claims::ClaimsModel,
    second: claims::ClaimsModel,
)
    requires
        first.user_id_claim() == second.user_id_claim(),
        first.sub_claim() == second.sub_claim(),
    ensures
        match (first.email_claim(), second.email_claim()) {
            (Some(a), Some(b)) => {
                let same = identity::personal_ids(Some(first)) == identity::personal_ids(
                    Some(second),
                );
                &&& text::lower_case(a) == text::lower_case(b) ==> same
                &&& text::all_ascii(a) && text::all_ascii(b) && text::ascii_lowercase(a)
                    == text::ascii_lowercase(b) ==> same
            },
            (None, None) => identity::personal_ids(Some(first)) == identity::personal_ids(
                Some(second),
            ),
            _ => true,
        },
{
}

/// Where an email of ASCII characters is all that the tokens name of the person, the
/// key does not depend on its case, whichever token names it.
pub proof fn the_case_of_an_email_does_not_split_an_account(
    first_id: Option<claims::ClaimsModel>,
    first_access: Option<claims::ClaimsModel>,
    second_id: Option<claims::ClaimsModel>,
    second_access: Option<claims::ClaimsModel>,
)
    ensures
        match (
            identity::ascii_email_alone(first_id, first_access),
            identity::ascii_email_alone(second_id, second_access),
        ) {
            (Some(a), Some(b)) => {
                let first = identity::identity_of(first_id, first_access).primary;
                let second = identity::identity_of(second_id, second_access).primary;
                &&& first == Some(text::ascii_lowercase(a))
                &&& text::ascii_lowercase(a) == text::ascii_lowercase(b) ==> first == second
                    && forall|workspace: Option<Seq<char>>| #[trigger]
                        identity::account_key(first, workspace) == identity::account_key(
                            second,
                            workspace,
                        )
            },
            _ => true,
        },
{
}

/// What the access token says moves neither the person nor the workspace of an
/// account whose ID token names both.
pub proof fn the_id_token_decides_alone(
    id_claims: Option<claims::ClaimsModel>,
    first: Option<claims::ClaimsModel>,
    second: Option<claims::ClaimsModel>,
)
    ensures
        identity::personal_ids(id_claims).len() > 0 ==> identity::identity_of(
            id_claims,
            first,
        ).primary == identity::identity_of(id_claims, second).primary,
        identity::workspace_in(id_claims) is Some ==> identity::workspace_of(id_claims, first)
            == identity::workspace_of(id_claims, second),
        identity::personal_ids(id_claims).len() > 0 && identity::workspace_in(id_claims) is Some
            ==> identity::account_key(
            identity::identity_of(id_claims, first).primary,
            identity::workspace_of(id_claims, first),
        ) == identity::account_key(
            identity::identity_of(id_claims, second).primary,
            identity::workspace_of(id_claims, second),
        ),
{
}

/// The most lasting identifier of the ID token goes into the key: the user, or else
/// the subject, or else the email.
pub proof fn the_most_lasting_identifier_is_primary(
    claims: claims::ClaimsModel,
    access_claims: Option<claims::ClaimsModel>,
)
    ensures
        ({
            let primary = identity::identity_of(Some(claims), access_claims).primary;
            match (claims.user_id_claim(), claims.sub_claim(), claims.email_claim()) {
                (Some(user), _, _) => primary == Some(user),
                (None, Some(sub), _) => primary == Some(sub),
                (None, None, Some(email)) => primary == Some(text::lower_case(email)),
                (None, None, None) => primary == identity::identity_of(
                    None,
                    access_claims,
                ).primary,
            }
        }),
{
}

/// The workspace of a login is the one that the ID token names, and the one that the
/// access token names wherever the ID token names none, be it without claims or with
/// claims of another kind.
pub proof fn the_access_token_names_the_workspace_where_the_id_token_does_not(
    id_claims: Option<claims::ClaimsModel>,
    access_claims: Option<claims::ClaimsModel>,
)
    ensures
        ({
            let workspace = identity::workspace_of(id_claims, access_claims);
            &&& id_claims is Some && id_claims->0.workspace() is Some ==> workspace
                == id_claims->0.workspace()
            &&& (id_claims is None || id_claims->0.workspace() is None) && access_claims is Some
                ==> workspace == access_claims->0.workspace()
            &&& (id_claims is None || id_claims->0.workspace() is None) && access_claims is None
                ==> workspace is None
        }),
{
}

/// The email to show is the one that the ID token names, as it is written there, and
/// the one that the access token names wherever the ID token names none.
pub proof fn the_access_token_names_the_email_where_the_id_token_does_not(
    id_claims: Option<claims::ClaimsModel>,
    access_claims: Option<claims::ClaimsModel>,
)
    ensures
        ({
            let email = identity::identity_of(id_claims, access_claims).email;
            &&& id_claims is Some && id_claims->0.email_claim() is Some ==> email
                == id_claims->0.email_claim()
            &&& (id_claims is None || id_claims->0.email_claim() is None) && access_claims is Some
                ==> email == access_claims->0.email_claim()
            &&& (id_claims is None || id_claims->0.email_claim() is None) && access_claims is None
                ==> email is None
        }),
{
}

/// Where the ID token names nobody, the access token is asked in the same order: the
/// user, or else the subject, or else the email.
pub proof fn the_access_token_names_the_person_where_the_id_token_does_not(
    id_claims: Option<claims::ClaimsModel>,
    access_claims: Option<claims::ClaimsModel>,
)
    requires
        id_claims is Some ==> id_claims->0.user_id_claim() is None && id_claims->0.sub_claim()
            is None && id_claims->0.email_claim() is None,
    ensures
        ({
            let primary = identity::identity_of(id_claims, access_claims).primary;
            match access_claims {
                Some(claims) => match (
                    claims.user_id_claim(),
                    claims.sub_claim(),
                    claims.email_claim(),
                ) {
                    (Some(user), _, _) => primary == Some(user),
                    (None, Some(sub), _) => primary == Some(sub),
                    (None, None, Some(email)) => primary == Some(text::lower_case(email)),
                    (None, None, None) => primary is None,
                },
                None => primary is None,
            }
        }),
{
}

/// Whether `claims` name `value` as the user, as the subject or as the email in lower
/// case.
pub open spec fn named_by(claims: Option<claims::ClaimsModel>, value: Seq<char>) -> bool {
    match claims {
        Some(claims) => {
            ||| claims.user_id_claim() == Some(value)
            ||| claims.sub_claim() == Some(value)
            ||| claims.email_claim() is Some && text::lower_case(claims.email_claim()->0) == value
        },
        None => false,
    }
}

/// A candidate is whatever one of the two tokens names.
pub proof fn a_candidate_is_named_by_one_of_the_tokens(
    id_claims: Option<claims::ClaimsModel>,
    access_claims: Option<claims::ClaimsModel>,
    value: Seq<char>,
)
    ensures
        identity::identity_of(id_claims, access_claims).candidates.contains(value) <==> named_by(
            id_claims,
            value,
        ) || named_by(access_claims, value),
{
    candidates_are_the_personal_identifiers(id_claims, access_claims);
    lemma_personal_ids(id_claims, value);
    lemma_personal_ids(access_claims, value);
}

proof fn lemma_personal_ids(claims: Option<claims::ClaimsModel>, value: Seq<char>)
    ensures
        identity::personal_ids(claims).contains(value) <==> named_by(claims, value),
{
    let ids = identity::personal_ids(claims);
    match claims {
        Some(inner) => {
            let email = match inner.email_claim() {
                Some(email) => Some(text::lower_case(email)),
                None => None,
            };
            let a = identity::present(inner.user_id_claim());
            let b = identity::present(inner.sub_claim());
            let c = identity::present(email);
            assert(ids == a + b + c);
            if inner.user_id_claim() == Some(value) {
                assert(ids[0] == value);
            }
            if inner.sub_claim() == Some(value) {
                assert(ids[a.len() as int] == value);
            }
            if email == Some(value) {
                assert(ids[(a.len() + b.len()) as int] == value);
            }
        },
        None => {},
    }
}

/// The key of an account is the person and the workspace with two colons between
/// them, or the one of the two that is known.
pub proof fn a_key_is_made_of_what_is_known(user: Seq<char>, workspace: Seq<char>)
    ensures
        identity::account_key(Some(user), Some(workspace)) == Some(
            user + seq![':', ':'] + workspace,
        ),
        identity::account_key(Some(user), None) == Some(user),
        identity::account_key(None, Some(workspace)) == Some(workspace),
        identity::account_key(None, None) is None,
        composite_key(user, workspace) == user + seq![':', ':'] + workspace,
{
    reveal_strlit("::");
    assert(identity::ACCOUNT_ID_SEPARATOR@ =~= seq![':', ':']);
}

/// A key comes apart at its first two colons, and does not where there are none.
pub proof fn a_key_comes_apart_at_the_first_two_colons(key: Seq<char>)
    ensures
        match identity::key_parts(key) {
            Some((user, workspace)) => {
                &&& key == user + seq![':', ':'] + workspace
                &&& forall|i: int|
                    0 <= i < user.len() ==> !(#[trigger] key[i] == ':' && key[i + 1] == ':')
            },
            None => forall|i: int|
                0 <= i < key.len() - 1 ==> !(#[trigger] key[i] == ':' && key[i + 1] == ':'),
        },
{
    reveal_strlit("::");
    let separator = identity::ACCOUNT_ID_SEPARATOR@;
    assert(separator =~= seq![':', ':']);
    texts::a_text_comes_apart_at_the_first_delimiter(key, separator);
    assert forall|i: int|
        0 <= i < key.len() - 1 && #[trigger] key[i] == ':' && key[i + 1] == ':' implies key.subrange(
        i,
        i + separator.len(),
    ) == separator by {
        assert(key.subrange(i, i + 2) =~= separator);
    }
}

/// Tokens belong to the account of a person in a workspace exactly where they name
/// the person, and the workspace stands in the claims, or in the file where the
/// claims name none.
pub proof fn a_composite_key_needs_person_and_workspace(
    owner: identity::IdentityModel,
    user: Seq<char>,
    workspace: Seq<char>,
    claimed: Seq<char>,
    tokens_account_id: Option<Seq<char>>,
)
    requires
        stands_before_separator(user),
    ensures
        ({
            let key = composite_key(user, workspace);
            &&& identity::owns(owner, Some(claimed), tokens_account_id, key)
                <==> owner.candidates.contains(user) && claimed == workspace
            &&& identity::owns(owner, None, tokens_account_id, key)
                <==> owner.candidates.contains(user) && tokens_account_id == Some(workspace)
        }),
{
    keys_come_apart_again(user, workspace);
}

/// Tokens belong to the account under a plain key exactly where their claims name it
/// as the workspace, or name no workspace, and either the claims name it as the
/// person or the file names it.
pub proof fn a_plain_key_is_a_workspace_or_a_person_without_one(
    owner: identity::IdentityModel,
    key: Seq<char>,
    claimed: Seq<char>,
    tokens_account_id: Option<Seq<char>>,
)
    requires
        identity::key_parts(key) is None,
    ensures
        identity::owns(owner, Some(claimed), tokens_account_id, key) <==> claimed == key,
        identity::owns(owner, None, tokens_account_id, key) <==> owner.candidates.contains(key)
            || tokens_account_id == Some(key),
{
}

/// Without a workspace, the native account is the key itself where that is plain, and
/// nothing where it names a person and a workspace.
pub proof fn a_plain_key_is_the_native_account(account_id: Seq<char>, workspace: Seq<char>)
    ensures
        identity::native_account(Some(workspace), account_id) == workspace,
        identity::key_parts(account_id) is None ==> identity::native_account(None, account_id)
            == account_id,
        identity::key_parts(account_id) is Some ==> identity::native_account(
            None,
            account_id,
        ).len() == 0,
{
}

/// The account of a login is keyed by the person and the workspace that its tokens
/// name, the ID token before the access token.
pub proof fn a_login_is_keyed_by_what_its_tokens_name(tokens: account::TokensModel)
    ensures
        ({
            let id_claims = match tokens.id_token {
                Some(token) => token.claims,
                None => None,
            };
            let named = identity::identity_of(id_claims, tokens.access_token.claims);
            let workspace = identity::workspace_of(id_claims, tokens.access_token.claims);
            &&& tokens.identity() == named
            &&& tokens.workspace() == workspace
            &&& tokens.account_id() == identity::account_key(named.primary, workspace)
            &&& tokens.account_id() is None <==> named.primary is None && workspace is None
        }),
{
}

} // verus!
