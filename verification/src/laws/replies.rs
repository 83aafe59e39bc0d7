//! What is read from tokens and from the replies of the server.
use crate::account;
use crate::claims;
use crate::clock;
use crate::error;
use crate::exchange;
use crate::json;
use crate::laws::texts;
use crate::text;
use vstd::prelude::*;

verus! {

/// Of the claims that can name a workspace the first one that is there counts, even
/// where it is blank: the one at the top, the one among the auth claims, and that of
/// the first organization.
pub proof fn the_first_workspace_claim_counts(claims: claims::ClaimsModel)
    ensures
        claims.chatgpt_account_id is Some ==> claims.workspace() == text::trimmed_non_empty(
            claims.chatgpt_account_id,
        ),
        claims.chatgpt_account_id is None && claims.openai_auth is Some
            && claims.openai_auth->0.chatgpt_account_id is Some ==> claims.workspace()
            == text::trimmed_non_empty(claims.openai_auth->0.chatgpt_account_id),
        claims.chatgpt_account_id is None && (claims.openai_auth is None
            || claims.openai_auth->0.chatgpt_account_id is None) && claims.organizations.len() > 0
            ==> claims.workspace() == text::trimmed_non_empty(claims.organizations[0]),
        claims.chatgpt_account_id is None && (claims.openai_auth is None
            || claims.openai_auth->0.chatgpt_account_id is None) && claims.organizations.len() == 0
            ==> claims.workspace() is None,
{
}

/// The user stands among the auth claims, the subject and the email at the top; each
/// is trimmed, and not there where it is blank.
pub proof fn the_identifiers_are_read_from_their_claims(claims: claims::ClaimsModel)
    ensures
        claims.openai_auth is Some ==> claims.user_id_claim() == text::trimmed_non_empty(
            claims.openai_auth->0.user_id,
        ),
        claims.openai_auth is None ==> claims.user_id_claim() is None,
        claims.sub_claim() == text::trimmed_non_empty(claims.sub),
        claims.email_claim() == text::trimmed_non_empty(claims.email),
{
}

/// Whether no dot stands in `part`.
pub open spec fn dotless(part: Seq<char>) -> bool {
    forall|i: int| 0 <= i < part.len() ==> #[trigger] part[i] != '.'
}

/// Three parts with a dot between each two of them.
pub open spec fn three_parts(header: Seq<char>, payload: Seq<char>, signature: Seq<char>) -> Seq<
    char,
> {
    header + seq!['.'] + payload + seq!['.'] + signature
}

proof fn lemma_dot_splits(before: Seq<char>, after: Seq<char>)
    requires
        dotless(before),
    ensures
        text::split_first(before + seq!['.'] + after, "."@) == Some((before, after)),
{
    reveal_strlit(".");
    assert("."@ =~= seq!['.']);
    let whole = before + seq!['.'] + after;
    texts::a_text_comes_apart_at_the_first_delimiter(whole, "."@);
    let at = before.len() as int;
    assert(whole.subrange(at, at + 1) =~= "."@);
    match text::split_first(whole, "."@) {
        Some((x, y)) => {
            if x.len() < at {
                assert(whole[x.len() as int] == (x + "."@ + y)[x.len() as int]);
                assert(before[x.len() as int] == '.');
            }
            if x.len() > at {
                assert(whole.subrange(at, at + "."@.len()) != "."@);
            }
            assert(x =~= whole.take(at));
            assert(before =~= whole.take(at));
            assert(y =~= whole.skip(at + 1));
            assert(after =~= whole.skip(at + 1));
        },
        None => {
            assert(whole.subrange(at, at + "."@.len()) != "."@);
        },
    }
}

proof fn lemma_no_dot(part: Seq<char>)
    ensures
        text::split_first(part, "."@) is None <==> dotless(part),
{
    reveal_strlit(".");
    assert("."@ =~= seq!['.']);
    texts::a_text_comes_apart_at_the_first_delimiter(part, "."@);
    match text::split_first(part, "."@) {
        Some((x, y)) => {
            assert(part[x.len() as int] == (x + "."@ + y)[x.len() as int]);
        },
        None => {
            assert forall|i: int| 0 <= i < part.len() implies #[trigger] part[i] != '.' by {
                assert(part.subrange(i, i + "."@.len()) != "."@);
                assert(part.subrange(i, i + 1) =~= seq![part[i]]);
            }
        },
    }
}

proof fn lemma_first_part_is_dotless(whole: Seq<char>)
    ensures
        match text::split_first(whole, "."@) {
            Some((before, after)) => dotless(before) && whole == before + seq!['.'] + after,
            None => true,
        },
{
    reveal_strlit(".");
    assert("."@ =~= seq!['.']);
    texts::a_text_comes_apart_at_the_first_delimiter(whole, "."@);
    match text::split_first(whole, "."@) {
        Some((before, after)) => {
            assert forall|i: int| 0 <= i < before.len() implies #[trigger] before[i] != '.' by {
                assert(whole.subrange(i, i + "."@.len()) != "."@);
                assert(whole.subrange(i, i + 1) =~= seq![before[i]]);
            }
        },
        None => {},
    }
}

/// The payload of a token is the middle one of its three parts.
pub proof fn the_payload_is_the_middle_part(
    header: Seq<char>,
    payload: Seq<char>,
    signature: Seq<char>,
)
    requires
        dotless(header),
        dotless(payload),
        dotless(signature),
    ensures
        claims::jwt_middle_part(three_parts(header, payload, signature)) == Some(payload),
        claims::jwt_payload_bytes(three_parts(header, payload, signature))
            == claims::url_safe_bytes(payload),
{
    let rest = payload + seq!['.'] + signature;
    assert(three_parts(header, payload, signature) =~= header + seq!['.'] + rest);
    lemma_dot_splits(header, rest);
    lemma_dot_splits(payload, signature);
    lemma_no_dot(signature);
}

/// A token has a payload only where it is made of three parts, and its claims are
/// those that were read from the payload, where that could be decoded.
pub proof fn only_three_parts_have_a_payload(token: Seq<char>, read: Option<claims::ClaimsModel>)
    ensures
        match claims::jwt_middle_part(token) {
            Some(payload) => exists|header: Seq<char>, signature: Seq<char>|
                dotless(header) && dotless(payload) && dotless(signature) && token
                    == #[trigger] three_parts(header, payload, signature),
            None => forall|header: Seq<char>, payload: Seq<char>, signature: Seq<char>|
                dotless(header) && dotless(payload) && dotless(signature) ==> token
                    != #[trigger] three_parts(header, payload, signature),
        },
        claims::jwt_middle_part(token) is None ==> claims::jwt_payload_bytes(token) is None,
        claims::token_with(token, read).text == token,
        claims::jwt_payload_bytes(token) is Some ==> claims::token_with(token, read).claims
            == read,
        claims::jwt_payload_bytes(token) is None ==> claims::token_with(token, read).claims
            is None,
{
    match claims::jwt_middle_part(token) {
        Some(payload) => {
            lemma_first_part_is_dotless(token);
            let (header, rest) = text::split_first(token, "."@)->0;
            lemma_first_part_is_dotless(rest);
            let (middle, signature) = text::split_first(rest, "."@)->0;
            lemma_no_dot(signature);
            assert(token =~= three_parts(header, payload, signature));
        },
        None => {
            assert forall|header: Seq<char>, payload: Seq<char>, signature: Seq<char>|
                dotless(header) && dotless(payload) && dotless(signature) implies token
                != #[trigger] three_parts(header, payload, signature) by {
                the_payload_is_the_middle_part(header, payload, signature);
            }
        },
    }
}

/// A token expires as many seconds after `now_ms` as its life has, and an hour after
/// it where no life is given.
pub proof fn a_token_expires_after_its_life(now_ms: i64, secs: i64)
    ensures
        clock::expires_at(now_ms, Some(secs)) == now_ms + secs * 1000,
        clock::expires_at(now_ms, None) == now_ms + 3_600_000,
{
}

/// A token is expiring soon exactly where less than a minute is left of it.
pub proof fn a_token_is_expiring_in_its_last_minute(cached: account::CachedModel, now_ms: i64)
    ensures
        cached.expiring_soon(now_ms) <==> cached.expires_at_ms < now_ms + 60_000,
{
}

/// The time that is written is the one that was asked for, where it can be written,
/// and the other one otherwise.
pub proof fn the_time_that_was_asked_for_is_written(asked_ms: i64, other_ms: i64)
    ensures
        clock::CLOCK_MIN_MS <= asked_ms <= clock::CLOCK_MAX_MS ==> clock::written_time(
            asked_ms,
            other_ms,
        ) == asked_ms,
        !(clock::CLOCK_MIN_MS <= asked_ms <= clock::CLOCK_MAX_MS) ==> clock::written_time(
            asked_ms,
            other_ms,
        ) == other_ms,
        clock::time_text(asked_ms, other_ms) == clock::rfc3339_text(
            clock::written_time(asked_ms, other_ms),
        )->0,
        clock::writes_time(clock::time_text(asked_ms, other_ms), asked_ms, other_ms)
            <==> clock::rfc3339_text(clock::written_time(asked_ms, other_ms)) is Some,
{
}

/// The polling interval is the number that the server sent, as a number or as a text,
/// or else five seconds; at least one second, and three more than that.
pub proof fn the_polling_interval_follows_the_server(
    number: Option<u64>,
    written: Seq<char>,
    flag: bool,
    list: Seq<json::JsonTree>,
    members: Map<Seq<char>, json::JsonTree>,
)
    ensures
        json::kept_interval(Some(json::JsonTree::Number(number))) == match number {
            Some(secs) => if secs == 0 {
                4
            } else {
                secs + 3
            },
            None => 8,
        },
        json::kept_interval(Some(json::JsonTree::Text(written))) == match text::decimal_u64(
            written,
        ) {
            Some(secs) => if secs == 0 {
                4
            } else {
                secs + 3
            },
            None => 8,
        },
        json::kept_interval(None) == 8,
        json::kept_interval(Some(json::JsonTree::Null)) == 8,
        json::kept_interval(Some(json::JsonTree::Bool(flag))) == 8,
        json::kept_interval(Some(json::JsonTree::List(list))) == 8,
        json::kept_interval(Some(json::JsonTree::Object(members))) == 8,
{
}

/// The error code of a refusal is the text under `error`, or the text under `code` in
/// the object under `error`, or else the text under `code`; in lower case.
pub proof fn the_error_code_is_looked_for_under_error_first(
    members: Map<Seq<char>, json::JsonTree>,
    inner: Map<Seq<char>, json::JsonTree>,
    code: Seq<char>,
    body: json::JsonTree,
)
    ensures
        members.dom().contains("error"@) && members["error"@] == json::JsonTree::Text(code)
            ==> json::error_code_in(json::JsonTree::Object(members)) == Some(
            text::ascii_lowercase(code),
        ),
        members.dom().contains("error"@) && members["error"@] == json::JsonTree::Object(inner)
            && inner.dom().contains("code"@) && inner["code"@] == json::JsonTree::Text(code)
            ==> json::error_code_in(json::JsonTree::Object(members)) == Some(
            text::ascii_lowercase(code),
        ),
        (!members.dom().contains("error"@) || !(members["error"@] is Text || members["error"@]
            is Object) || members["error"@] == json::JsonTree::Object(inner) && !(
        inner.dom().contains("code"@) && inner["code"@] is Text)) && members.dom().contains("code"@)
            && members["code"@] == json::JsonTree::Text(code) ==> json::error_code_in(
            json::JsonTree::Object(members),
        ) == Some(text::ascii_lowercase(code)),
        (!members.dom().contains("error"@) || !(members["error"@] is Text || members["error"@]
            is Object) || members["error"@] == json::JsonTree::Object(inner) && !(
        inner.dom().contains("code"@) && inner["code"@] is Text)) && !(members.dom().contains(
            "code"@,
        ) && members["code"@] is Text) ==> json::error_code_in(json::JsonTree::Object(members))
            is None,
        !(body is Object) ==> json::error_code_in(body) is None,
        json::error_code_of(Some(body)) == json::error_code_in(body),
        json::error_code_of(None) is None,
{
}

/// A poll waits where the server says that the user has not decided, ends where the
/// code has expired, goes on after a success, and fails otherwise.
pub proof fn a_poll_means_what_its_status_says(
    status: u16,
    status_text: Seq<char>,
    body: Seq<char>,
)
    ensures
        ({
            let reply = exchange::poll_reply(status, status_text, body);
            &&& status == 403 || status == 404 ==> reply == Err::<(), _>(
                error::ErrorModel::AuthorizationPending,
            )
            &&& status == 410 ==> reply == Err::<(), _>(error::ErrorModel::ExpiredToken)
            &&& 200 <= status < 300 ==> reply == Ok::<(), error::ErrorModel>(())
            &&& !(200 <= status < 300) && status != 403 && status != 404 && status != 410 ==> reply
                == Err::<(), _>(
                error::ErrorModel::TokenFetchFailed(status_text + " - "@ + body),
            )
        }),
{
}

/// An exchange is read after a success and fails otherwise.
pub proof fn an_exchange_succeeds_by_its_status(
    status: u16,
    status_text: Seq<char>,
    body: Seq<char>,
)
    ensures
        ({
            let reply = exchange::exchange_reply(status, status_text, body);
            &&& 200 <= status < 300 ==> reply == Ok::<(), error::ErrorModel>(())
            &&& !(200 <= status < 300) ==> reply == Err::<(), _>(
                error::ErrorModel::TokenFetchFailed(
                    "Token 交换失败: "@ + (status_text + " - "@ + body),
                ),
            )
            &&& exchange::success(status) <==> 200 <= status < 300
        }),
{
}

/// A refused refresh means that the refresh token is no longer accepted where the
/// status or the error code says so, and is a failure of the request otherwise.
pub proof fn a_refresh_token_is_rejected_by_status_or_code(
    status: u16,
    status_text: Seq<char>,
    body: Seq<char>,
    code: Option<Seq<char>>,
)
    ensures
        ({
            let reply = exchange::refresh_reply(status, status_text, body, code);
            let rejected = status == 401 || status == 403 || code == Some(
                "refresh_token_expired"@,
            ) || code == Some("refresh_token_reused"@) || code == Some(
                "refresh_token_invalidated"@,
            );
            &&& 200 <= status < 300 ==> reply == Ok::<(), error::ErrorModel>(())
            &&& !(200 <= status < 300) && rejected ==> reply == Err::<(), _>(
                error::ErrorModel::RefreshTokenInvalid,
            )
            &&& !(200 <= status < 300) && !rejected ==> reply == Err::<(), _>(
                error::ErrorModel::TokenFetchFailed(
                    "Refresh 失败: "@ + (status_text + " - "@ + body),
                ),
            )
        }),
{
}

/// An error that carries a detail is shown by what failed and then the detail, as it
/// is; one that carries none is always shown the same.
pub proof fn an_error_is_shown_with_its_detail(detail: Seq<char>)
    ensures
        error::ErrorModel::TokenFetchFailed(detail).message() == "OAuth Token 获取失败: "@ + detail,
        error::ErrorModel::NetworkError(detail).message() == "网络错误: "@ + detail,
        error::ErrorModel::ParseError(detail).message() == "解析错误: "@ + detail,
        error::ErrorModel::IoError(detail).message() == "IO 错误: "@ + detail,
        error::ErrorModel::AccountNotFound(detail).message() == "账号不存在: "@ + detail,
        error::ErrorModel::AuthorizationPending.message() == "等待用户授权中"@,
        error::ErrorModel::AccessDenied.message() == "用户拒绝授权"@,
        error::ErrorModel::ExpiredToken.message() == "Device Code 已过期"@,
        error::ErrorModel::RefreshTokenInvalid.message() == "Refresh Token 失效或已过期"@,
{
}

} // verus!
