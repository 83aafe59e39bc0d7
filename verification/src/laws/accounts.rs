//! Accounts, the default account, access tokens and logins.
use crate::account;
use crate::adoption;
use crate::adoption::RefreshTokenAdoptionMode;
use crate::clock;
use crate::error;
use crate::json;
use crate::listing;
use crate::model;
use crate::model::LoginTimes;
use crate::text;
use vstd::prelude::*;

verus! {

/// Whether every account stands under the key that it carries.
pub open spec fn keyed_by_id(accounts: Map<Seq<char>, account::AccountModel>) -> bool {
    forall|id: Seq<char>| #[trigger] accounts.dom().contains(id) ==> accounts[id].account_id == id
}

/// What holds of the authentication center at any time: every access token belongs
/// to an account, and every account stands under its own key.
pub open spec fn sound(manager: model::ManagerModel) -> bool {
    manager.tokens_have_accounts() && keyed_by_id(manager.accounts)
}

/// A new authentication center is sound, and so is one with stored accounts that
/// stand under their own keys.
pub proof fn the_beginning_is_sound(
    accounts: Map<Seq<char>, account::AccountModel>,
    default_account_id: Option<Seq<char>>,
)
    requires
        keyed_by_id(accounts),
    ensures
        sound(model::ManagerModel::empty()),
        sound(model::ManagerModel::loaded(accounts, default_account_id)),
{
}

/// Choosing a default, removing an account and clearing everything keep the
/// authentication center sound.
pub proof fn account_management_stays_sound(manager: model::ManagerModel, account_id: Seq<char>)
    requires
        sound(manager),
    ensures
        sound(manager.choosing_default(account_id).0),
        sound(manager.without_account(account_id)),
        sound(manager.removing(account_id).0),
        sound(manager.cleared()),
{
    let after = manager.without_account(account_id);
    assert forall|id: Seq<char>| #[trigger] after.access_tokens.dom().contains(id) implies after.has(
        id,
    ) by {
        assert(manager.access_tokens.dom().contains(id));
    }
}

/// Beginning a login, and asking for its user code, keep the authentication center
/// sound.
pub proof fn beginning_a_login_stays_sound(
    manager: model::ManagerModel,
    device: model::DeviceCodeModel,
    login_epoch: u64,
    obtained_ms: i64,
    now_ms: i64,
    device_code: Seq<char>,
)
    requires
        sound(manager),
    ensures
        sound(manager.starting_flow(device, login_epoch, obtained_ms, now_ms).0),
        sound(manager.polling(device_code, now_ms).0),
{
}

/// Adding an account keeps the authentication center sound.
pub proof fn adding_an_account_stays_sound(
    manager: model::ManagerModel,
    new: model::NewAccountModel,
    authenticated_at: i64,
    now_ms: i64,
)
    requires
        sound(manager),
    ensures
        sound(manager.adding(new, authenticated_at, now_ms).0),
{
    let after = manager.adding(new, authenticated_at, now_ms).0;
    assert forall|id: Seq<char>| #[trigger] after.access_tokens.dom().contains(id) implies after.has(
        id,
    ) by {
        if id != new.account_id {
            assert(manager.access_tokens.dom().contains(id));
        }
    }
}

/// Completing a login keeps the authentication center sound.
pub proof fn completing_a_login_stays_sound(
    manager: model::ManagerModel,
    device_code: Seq<char>,
    tokens: account::TokensModel,
    times: LoginTimes,
)
    requires
        sound(manager),
    ensures
        sound(manager.logging_in(device_code, tokens, times).0),
{
    match (tokens.refresh_token, tokens.account_id()) {
        (Some(refresh_token), Some(account_id)) => {
            let new = model::NewAccountModel {
                account_id,
                refresh_token,
                email: tokens.identity().email,
                chatgpt_account_id: tokens.workspace(),
                id_token: adoption::usable_token(tokens.id_token),
                access_token: Some(
                    account::CachedModel {
                        token: tokens.access_token.text,
                        expires_at_ms: clock::expires_at(
                            times.life_from_ms,
                            tokens.expires_in,
                        ) as i64,
                        obtained_at_ms: times.obtained_at_ms,
                    },
                ),
                device_code: Some(device_code),
            };
            adding_an_account_stays_sound(
                manager,
                new,
                times.authenticated_at,
                times.token_updated_at_ms,
            );
        },
        _ => {},
    }
}

/// Meeting the credentials file keeps the authentication center sound.
pub proof fn adopting_stays_sound(
    manager: model::ManagerModel,
    account_id: Seq<char>,
    live: adoption::LiveModel,
    mode: RefreshTokenAdoptionMode,
    now_ms: i64,
)
    requires
        sound(manager),
    ensures
        sound(manager.adopting(account_id, live, mode, now_ms).0),
{
    let after = manager.adopting(account_id, live, mode, now_ms).0;
    assert forall|id: Seq<char>| #[trigger] after.access_tokens.dom().contains(id) implies after.has(
        id,
    ) by {
        assert(manager.access_tokens.dom().contains(id));
    }
}

/// Meeting the credentials file, with the refresh token as the file writes it, keeps
/// the authentication center sound.
pub proof fn adopting_written_tokens_stays_sound(
    manager: model::ManagerModel,
    account_id: Seq<char>,
    live: adoption::LiveModel,
    now_ms: i64,
)
    requires
        sound(manager),
    ensures
        sound(manager.adopting_written(account_id, live, now_ms).0),
{
    adopting_stays_sound(
        manager,
        account_id,
        adoption::LiveModel { refresh_token: text::trimmed(live.refresh_token), ..live },
        RefreshTokenAdoptionMode::TimestampChecked,
        now_ms,
    );
}

/// Storing the tokens of a refresh keeps the authentication center sound.
pub proof fn renewing_stays_sound(
    manager: model::ManagerModel,
    account_id: Seq<char>,
    used: Seq<char>,
    tokens: account::TokensModel,
    now_ms: i64,
)
    requires
        sound(manager),
    ensures
        sound(manager.renewing(account_id, used, tokens, now_ms).0),
{
    let after = manager.renewing(account_id, used, tokens, now_ms).0;
    assert forall|id: Seq<char>| #[trigger] after.access_tokens.dom().contains(id) implies after.has(
        id,
    ) by {
        assert(manager.access_tokens.dom().contains(id));
    }
}

/// Keeping an access token keeps the authentication center sound.
pub proof fn caching_stays_sound(
    manager: model::ManagerModel,
    account_id: Seq<char>,
    cached: account::CachedModel,
)
    requires
        sound(manager),
    ensures
        sound(manager.caching(account_id, cached).0),
{
    let after = manager.caching(account_id, cached).0;
    assert forall|id: Seq<char>| #[trigger] after.access_tokens.dom().contains(id) implies after.has(
        id,
    ) by {
        if id != account_id {
            assert(manager.access_tokens.dom().contains(id));
        }
    }
}

/// Among finitely many accounts there is one that is preferred to all others.
proof fn lemma_some_account_is_most_preferred(accounts: Map<Seq<char>, account::AccountModel>) -> (
    best: Seq<char>)
    requires
        accounts.dom().finite(),
        accounts.dom().len() > 0,
    ensures
        listing::most_preferred(accounts, best),
    decreases accounts.dom().len(),
{
    let some = accounts.dom().choose();
    let rest = accounts.remove(some);
    assert(rest.dom() =~= accounts.dom().remove(some));
    if rest.dom().len() == 0 {
        assert forall|other: Seq<char>|
            #[trigger] accounts.dom().contains(other) && other != some implies listing::preferred(
            accounts,
            some,
            other,
        ) by {
            assert(rest.dom().contains(other));
        }
        some
    } else {
        let best = lemma_some_account_is_most_preferred(rest);
        text::text_order_is_total(some, best, some);
        if listing::preferred(accounts, some, best) {
            assert forall|other: Seq<char>|
                #[trigger] accounts.dom().contains(other) && other != some implies listing::preferred(
                accounts,
                some,
                other,
            ) by {
                assert(rest.dom().contains(other));
                if other != best {
                    assert(listing::preferred(rest, best, other));
                    text::text_order_is_total(some, best, other);
                }
            }
            some
        } else {
            assert(listing::preferred(accounts, best, some));
            assert forall|other: Seq<char>|
                #[trigger] accounts.dom().contains(other) && other != best implies listing::preferred(
                accounts,
                best,
                other,
            ) by {
                if other != some {
                    assert(rest.dom().contains(other));
                    assert(listing::preferred(rest, best, other));
                }
            }
            best
        }
    }
}

/// Where no default is chosen, the account of the latest login is the default, and
/// of several at the same time the one with the smallest key.
pub proof fn the_latest_login_is_the_fallback(accounts: Map<Seq<char>, account::AccountModel>)
    requires
        accounts.dom().finite(),
    ensures
        match listing::fallback(accounts) {
            Some(id) => listing::most_preferred(accounts, id),
            None => accounts.dom().len() == 0,
        },
{
    if accounts == Map::<Seq<char>, account::AccountModel>::empty() {
    } else {
        assert(accounts.dom().len() > 0) by {
            if accounts.dom().len() == 0 {
                assert(accounts.dom() =~= Set::empty());
                assert(accounts =~= Map::empty());
            }
        }
        let best = lemma_some_account_is_most_preferred(accounts);
    }
}

/// The default account is always one of the accounts, and there is one as soon as
/// there is any account.
pub proof fn the_default_account_is_there(manager: model::ManagerModel)
    requires
        manager.accounts.dom().finite(),
    ensures
        match manager.default_account() {
            Some(id) => manager.has(id),
            None => manager.accounts.dom().len() == 0,
        },
{
    the_latest_login_is_the_fallback(manager.accounts);
}

/// A chosen default stays the default for as long as its account is there.
pub proof fn the_chosen_default_is_the_default(manager: model::ManagerModel, account_id: Seq<char>)
    ensures
        match manager.choosing_default(account_id) {
            (after, Ok(_)) => after.default_account() == Some(account_id),
            (after, Err(_)) => after == manager,
        },
        manager.choosing_default(account_id).1 is Ok <==> manager.has(account_id),
{
}

/// After an account was removed, it is gone, with its access token, and is not the
/// default; every other account is as it was.
pub proof fn removing_an_account_removes_that_account_alone(
    manager: model::ManagerModel,
    account_id: Seq<char>,
    other: Seq<char>,
)
    requires
        manager.accounts.dom().finite(),
        manager.has(account_id),
        other != account_id,
    ensures
        ({
            let after = manager.removing(account_id).0;
            &&& !after.has(account_id)
            &&& model::lookup(after.access_tokens, account_id) is None
            &&& after.default_account() != Some(account_id)
            &&& model::lookup(after.accounts, other) == model::lookup(manager.accounts, other)
            &&& model::lookup(after.access_tokens, other) == model::lookup(
                manager.access_tokens,
                other,
            )
            &&& after.pending_device_codes == manager.pending_device_codes
        }),
{
    let after = manager.removing(account_id).0;
    assert(after.accounts.dom() =~= manager.accounts.dom().remove(account_id));
    the_default_account_is_there(after);
}

/// Where the account that is removed is not the default, the default stays.
pub proof fn removing_another_account_keeps_the_chosen_default(
    manager: model::ManagerModel,
    account_id: Seq<char>,
)
    requires
        manager.default_account_id is Some,
        manager.has(manager.default_account_id->0),
        manager.default_account_id != Some(account_id),
    ensures
        manager.removing(account_id).0.default_account() == manager.default_account(),
{
}

/// Adding an account leaves the accounts under other keys as they are.
pub proof fn accounts_under_different_keys_coexist(
    manager: model::ManagerModel,
    new: model::NewAccountModel,
    authenticated_at: i64,
    now_ms: i64,
    other: Seq<char>,
)
    requires
        other != new.account_id,
    ensures
        ({
            let after = manager.adding(new, authenticated_at, now_ms).0;
            &&& model::lookup(after.accounts, other) == model::lookup(manager.accounts, other)
            &&& model::lookup(after.access_tokens, other) == model::lookup(
                manager.access_tokens,
                other,
            )
        }),
{
}

/// A login has its account kept, with its access token; the first account becomes
/// the default, and a later one does not.
pub proof fn a_login_is_kept(
    manager: model::ManagerModel,
    device_code: Seq<char>,
    tokens: account::TokensModel,
    times: LoginTimes,
)
    ensures
        match manager.logging_in(device_code, tokens, times) {
            (after, Ok(shown)) => {
                &&& tokens.account_id() == Some(shown.id)
                &&& after.has(shown.id)
                &&& after.accounts[shown.id].summary() == shown
                &&& after.accounts[shown.id].refresh_token == tokens.refresh_token->0
                &&& after.accounts[shown.id].chatgpt_account_id == tokens.workspace()
                &&& model::lookup(after.access_tokens, shown.id) is Some
                &&& after.default_account_id == text::or_else(
                    manager.default_account_id,
                    Some(shown.id),
                )
            },
            (after, Err(_)) => after == manager,
        },
{
}

/// A login is completed once: the second time it is refused.
pub proof fn a_login_is_completed_once(
    manager: model::ManagerModel,
    device_code: Seq<char>,
    tokens: account::TokensModel,
    times: LoginTimes,
    more_tokens: account::TokensModel,
    more_times: LoginTimes,
)
    requires
        manager.logging_in(device_code, tokens, times).1 is Ok,
    ensures
        ({
            let after = manager.logging_in(device_code, tokens, times).0;
            &&& after.logging_in(device_code, more_tokens, more_times).0 == after
            &&& after.logging_in(device_code, more_tokens, more_times).1 is Err
            &&& after.polling(device_code, more_times.obtained_at_ms).1 is Err
        }),
{
}

/// After everything was cleared there is no account, no token and no login, and a
/// login that began before can neither be registered nor completed.
pub proof fn clearing_ends_every_login(
    manager: model::ManagerModel,
    device: model::DeviceCodeModel,
    now_ms: i64,
    device_code: Seq<char>,
    tokens: account::TokensModel,
    times: LoginTimes,
)
    ensures
        ({
            let after = manager.cleared();
            let old_epoch = manager.login_epoch;
            &&& after.accounts == Map::<Seq<char>, account::AccountModel>::empty()
            &&& after.access_tokens == Map::<Seq<char>, account::CachedModel>::empty()
            &&& after.default_account() is None
            &&& after.starting_flow(device, old_epoch, now_ms, now_ms) == (
                after,
                Err::<model::DeviceFlowModel, _>(error::ErrorModel::ExpiredToken),
            )
            &&& after.polling(device_code, now_ms).1 is Err
            &&& after.logging_in(device_code, tokens, times).0 == after
            &&& after.logging_in(device_code, tokens, times).1 is Err
        }),
{
}

/// A login is dropped when it has expired: by the registration of another one, and
/// when it is asked for.
pub proof fn expired_logins_are_dropped(
    manager: model::ManagerModel,
    expired: Seq<char>,
    device_auth_id: Seq<char>,
    pending: model::PendingModel,
    now_ms: i64,
)
    requires
        manager.pending_device_codes.dom().contains(expired),
        manager.pending_device_codes[expired].expires_at_ms <= now_ms,
        expired != device_auth_id,
    ensures
        ({
            let registered = manager.registering(
                device_auth_id,
                pending,
                manager.login_epoch,
                now_ms,
            ).0;
            let (polled, outcome) = manager.polling(expired, now_ms);
            &&& model::lookup(registered.pending_device_codes, expired) is None
            &&& model::lookup(polled.pending_device_codes, expired) is None
            &&& outcome == Err::<Seq<char>, _>(error::ErrorModel::ExpiredToken)
        }),
{
}

/// A login that was registered gives its user code until it expires.
pub proof fn a_registered_login_waits_for_the_user(
    manager: model::ManagerModel,
    device_auth_id: Seq<char>,
    pending: model::PendingModel,
    registered_ms: i64,
    now_ms: i64,
)
    requires
        now_ms < pending.expires_at_ms,
    ensures
        ({
            let (after, outcome) = manager.registering(
                device_auth_id,
                pending,
                manager.login_epoch,
                registered_ms,
            );
            &&& outcome is Ok
            &&& after.polling(device_auth_id, now_ms) == (
                after,
                Ok::<_, error::ErrorModel>(pending.user_code),
            )
        }),
{
}

/// What is read back of the stored accounts is what was stored: the accounts and
/// the default account.
pub proof fn stored_accounts_are_read_back(manager: model::ManagerModel)
    ensures
        ({
            let read = model::ManagerModel::loaded(manager.accounts, manager.default_account());
            &&& read.accounts == manager.accounts
            &&& read.default_account() == manager.default_account()
        }),
{
}

/// An access token is used as it is only where at least the refresh buffer is left
/// of it.
pub proof fn a_token_in_use_has_time_left(
    manager: model::ManagerModel,
    account_id: Seq<char>,
    now_ms: i64,
)
    ensures
        match manager.cached_token(account_id, now_ms) {
            Ok(Some(cached)) => {
                &&& manager.has(account_id)
                &&& cached.expires_at_ms - now_ms >= account::TOKEN_REFRESH_BUFFER_MS
                &&& model::lookup(manager.access_tokens, account_id) == Some(cached)
            },
            Ok(None) => manager.has(account_id),
            Err(_) => !manager.has(account_id),
        },
{
}

/// The server is never polled faster than every four seconds, nor faster than it
/// asks for.
pub proof fn polling_keeps_its_distance(interval: Option<json::JsonTree>)
    ensures
        json::kept_interval(interval) >= 4,
        json::kept_interval(interval) > json::requested_interval(interval),
{
}

/// The default account is listed first.
pub proof fn the_default_account_is_listed_first(
    manager: model::ManagerModel,
    list: Seq<account::SummaryModel>,
)
    requires
        sound(manager),
        listing::shows_all(manager.accounts, list),
        listing::in_order(list, manager.default_account()),
        manager.default_account() is Some,
        manager.has(manager.default_account()->0),
    ensures
        list.len() > 0,
        list[0].id == manager.default_account()->0,
{
    let id = manager.default_account()->0;
    let keys = choose|keys: Seq<Seq<char>>| #[trigger]
        listing::shows_keys(manager.accounts, keys, list) && keys.no_duplicates() && keys.to_set()
            == manager.accounts.dom();
    assert(keys.to_set().contains(id));
    let at = keys.index_of(id);
    assert(list[at] == manager.accounts[keys[at]].summary());
    assert(list[at].id == id);
    if at > 0 {
        assert(!listing::listed_before(list[at], list[0], manager.default_account()));
    }
}

/// The email of an account is shown, with the first eight characters of its trimmed
/// workspace behind it where that is not blank; without an email, the workspace or
/// the key is shown.
pub proof fn an_account_is_shown_by_its_email(account: account::AccountModel)
    ensures
        ({
            let shown = account.summary();
            let workspace = text::trimmed(account.chatgpt_account_id->0);
            &&& shown.id == account.account_id
            &&& shown.authenticated_at == account.authenticated_at
            &&& shown.avatar_url is None
            &&& shown.github_domain == "github.com"@
            &&& shown.reauth_required <==> account.id_token is None
            &&& account.email is Some && account.chatgpt_account_id is Some && !text::blank(
                account.chatgpt_account_id->0,
            ) ==> shown.login == account.email->0 + " ("@ + workspace.take(
                if workspace.len() < 8 {
                    workspace.len() as int
                } else {
                    8
                },
            ) + ")"@
            &&& account.email is Some && (account.chatgpt_account_id is None || text::blank(
                account.chatgpt_account_id->0,
            )) ==> shown.login == account.email->0
            &&& account.email is None && account.chatgpt_account_id is Some ==> shown.login
                == "ChatGPT ("@ + account.chatgpt_account_id->0 + ")"@
            &&& account.email is None && account.chatgpt_account_id is None ==> shown.login
                == "ChatGPT ("@ + account.account_id + ")"@
        }),
{
    let workspace = text::trimmed(account.chatgpt_account_id->0);
    assert(workspace.take(workspace.len() as int) =~= workspace);
}

/// The account that is the default where none is chosen is one with the latest login,
/// and of those the one whose key comes first.
pub proof fn the_fallback_has_the_latest_login(
    accounts: Map<Seq<char>, account::AccountModel>,
    other: Seq<char>,
)
    requires
        accounts.dom().finite(),
        accounts.dom().contains(other),
    ensures
        listing::fallback(accounts) is Some,
        accounts.dom().contains(listing::fallback(accounts)->0),
        accounts[listing::fallback(accounts)->0].authenticated_at
            >= accounts[other].authenticated_at,
        accounts[listing::fallback(accounts)->0].authenticated_at
            == accounts[other].authenticated_at && other != listing::fallback(accounts)->0
            ==> text::text_less(listing::fallback(accounts)->0, other),
{
    the_latest_login_is_the_fallback(accounts);
    assert(accounts.dom().len() > 0) by {
        if accounts.dom().len() == 0 {
            assert(accounts.dom() =~= Set::empty());
        }
    }
    let id = listing::fallback(accounts)->0;
    assert(listing::most_preferred(accounts, id));
    if other != id {
        assert(listing::preferred(accounts, id, other));
    }
}

/// The default account is the chosen one where it is there, and the fallback
/// otherwise.
pub proof fn the_default_account_is_the_chosen_one_or_the_fallback(manager: model::ManagerModel)
    ensures
        manager.default_account_id is Some && manager.accounts.dom().contains(
            manager.default_account_id->0,
        ) ==> manager.default_account() == manager.default_account_id,
        manager.default_account_id is None || !manager.accounts.dom().contains(
            manager.default_account_id->0,
        ) ==> manager.default_account() == listing::fallback(manager.accounts),
        listing::fallback(Map::<Seq<char>, account::AccountModel>::empty()) is None,
{
}

/// Whether `a` may stand before `b` in a list: it is the default, or neither is and
/// its login is later, or at the same time and its name does not come later.
pub open spec fn may_stand_before(
    a: account::SummaryModel,
    b: account::SummaryModel,
    default_account_id: Option<Seq<char>>,
) -> bool {
    let a_default = default_account_id == Some(a.id);
    let b_default = default_account_id == Some(b.id);
    ||| a_default && !b_default
    ||| a_default == b_default && a.authenticated_at > b.authenticated_at
    ||| a_default == b_default && a.authenticated_at == b.authenticated_at && !text::text_less(
        b.login,
        a.login,
    )
}

/// In a list of accounts the default stands first, then those with the later logins,
/// and those of the same time by their names.
pub proof fn accounts_are_listed_by_default_login_and_name(
    list: Seq<account::SummaryModel>,
    default_account_id: Option<Seq<char>>,
    i: int,
    j: int,
)
    requires
        listing::in_order(list, default_account_id),
        0 <= i < j < list.len(),
    ensures
        may_stand_before(list[i], list[j], default_account_id),
{
    assert(!listing::listed_before(list[j], list[i], default_account_id));
}

/// A list that shows all accounts shows as many as there are, each of them, and
/// nothing else.
pub proof fn a_list_shows_every_account_once(
    accounts: Map<Seq<char>, account::AccountModel>,
    list: Seq<account::SummaryModel>,
    id: Seq<char>,
    i: int,
)
    requires
        listing::shows_all(accounts, list),
    ensures
        list.len() == accounts.dom().len(),
        accounts.dom().contains(id) ==> list.contains(accounts[id].summary()),
        0 <= i < list.len() ==> exists|key: Seq<char>| #[trigger]
            accounts.dom().contains(key) && list[i] == accounts[key].summary(),
{
    let keys = choose|keys: Seq<Seq<char>>| #[trigger]
        listing::shows_keys(accounts, keys, list) && keys.no_duplicates() && keys.to_set()
            == accounts.dom();
    keys.unique_seq_to_set();
    if accounts.dom().contains(id) {
        assert(keys.to_set().contains(id));
        let n = keys.index_of(id);
        assert(list[n] == accounts[keys[n]].summary());
    }
    if 0 <= i < list.len() {
        assert(keys.contains(keys[i]));
        assert(keys.to_set().contains(keys[i]));
        assert(list[i] == accounts[keys[i]].summary());
    }
}

/// A center with stored accounts holds these and nothing else; the stored default is
/// the default where its account is there, and the fallback is otherwise.
pub proof fn stored_accounts_are_taken_up(
    accounts: Map<Seq<char>, account::AccountModel>,
    default_account_id: Option<Seq<char>>,
)
    ensures
        ({
            let loaded = model::ManagerModel::loaded(accounts, default_account_id);
            &&& loaded.accounts == accounts
            &&& loaded.access_tokens == Map::<Seq<char>, account::CachedModel>::empty()
            &&& loaded.pending_device_codes == Map::<Seq<char>, model::PendingModel>::empty()
            &&& loaded.login_epoch == 0
            &&& default_account_id is Some ==> loaded.default_account_id == default_account_id
            &&& default_account_id is Some && accounts.dom().contains(default_account_id->0)
                ==> loaded.default_account() == default_account_id
            &&& default_account_id is None ==> loaded.default_account() == listing::fallback(
                accounts,
            )
            &&& default_account_id is None ==> loaded.default_account_id == listing::fallback(
                accounts,
            )
            &&& model::ManagerModel::empty() == model::ManagerModel::loaded(
                Map::<Seq<char>, account::AccountModel>::empty(),
                None,
            )
        }),
{
}

/// Choosing a default changes the chosen default alone, to an account that is there.
pub proof fn choosing_a_default_changes_nothing_else(
    manager: model::ManagerModel,
    account_id: Seq<char>,
)
    ensures
        manager.accounts.dom().contains(account_id) ==> manager.choosing_default(account_id) == (
            model::ManagerModel { default_account_id: Some(account_id), ..manager },
            Ok::<(), error::ErrorModel>(()),
        ),
        !manager.accounts.dom().contains(account_id) ==> manager.choosing_default(account_id) == (
            manager,
            Err::<(), _>(error::ErrorModel::AccountNotFound(account_id)),
        ),
{
}

/// Removing an account takes it and its access token away. Another default that was
/// chosen stays chosen; where it was this account, the fallback of the rest is. An
/// account that is not there cannot be removed.
pub proof fn removing_an_account_moves_the_default_only_where_it_was_chosen(
    manager: model::ManagerModel,
    account_id: Seq<char>,
)
    ensures
        ({
            let (after, outcome) = manager.removing(account_id);
            let there = manager.accounts.dom().contains(account_id);
            &&& there ==> outcome == Ok::<(), error::ErrorModel>(())
            &&& there ==> after.accounts == manager.accounts.remove(account_id)
            &&& there ==> after.access_tokens == manager.access_tokens.remove(account_id)
            &&& there && manager.default_account_id == Some(account_id)
                ==> after.default_account_id == listing::fallback(after.accounts)
            &&& there && manager.default_account_id != Some(account_id)
                ==> after.default_account_id == manager.default_account_id
            &&& there ==> after.pending_device_codes == manager.pending_device_codes
                && after.login_epoch == manager.login_epoch
            &&& there ==> after == manager.without_account(account_id)
            &&& !there ==> after == manager && outcome == Err::<(), _>(
                error::ErrorModel::AccountNotFound(account_id),
            )
        }),
{
}

/// Clearing empties the center and counts the logins that began before as gone: the
/// epoch is another one.
pub proof fn clearing_empties_the_center(manager: model::ManagerModel)
    ensures
        ({
            let after = manager.cleared();
            &&& after.accounts == Map::<Seq<char>, account::AccountModel>::empty()
            &&& after.access_tokens == Map::<Seq<char>, account::CachedModel>::empty()
            &&& after.pending_device_codes == Map::<Seq<char>, model::PendingModel>::empty()
            &&& after.default_account_id is None
            &&& manager.login_epoch < u64::MAX ==> after.login_epoch == manager.login_epoch + 1
            &&& manager.login_epoch == u64::MAX ==> after.login_epoch == 0
        }),
{
}

/// A login is registered exactly where nothing was cleared since it began. It joins
/// the logins that have not expired, which stay as they are, and nothing else changes.
pub proof fn a_login_joins_those_that_have_not_expired(
    manager: model::ManagerModel,
    device_auth_id: Seq<char>,
    pending: model::PendingModel,
    login_epoch: u64,
    now_ms: i64,
    other: Seq<char>,
)
    ensures
        ({
            let (after, outcome) = manager.registering(
                device_auth_id,
                pending,
                login_epoch,
                now_ms,
            );
            let waits = manager.pending_device_codes.dom().contains(other)
                && manager.pending_device_codes[other].expires_at_ms > now_ms;
            &&& login_epoch != manager.login_epoch ==> after == manager && outcome == Err::<(), _>(
                error::ErrorModel::ExpiredToken,
            )
            &&& login_epoch == manager.login_epoch ==> {
                &&& outcome == Ok::<(), error::ErrorModel>(())
                &&& after == model::ManagerModel {
                    pending_device_codes: after.pending_device_codes,
                    ..manager
                }
                &&& after.pending_device_codes.dom().contains(device_auth_id)
                &&& after.pending_device_codes[device_auth_id] == pending
                &&& other != device_auth_id ==> (after.pending_device_codes.dom().contains(other)
                    <==> waits)
                &&& other != device_auth_id && waits ==> after.pending_device_codes[other]
                    == manager.pending_device_codes[other]
            }
        }),
{
}

/// A login that begins is told to the user with the codes of the server, its life, or
/// else fifteen minutes, and the polling interval; it waits under its code until its
/// life is over.
pub proof fn a_login_waits_for_as_long_as_the_server_says(
    manager: model::ManagerModel,
    device: model::DeviceCodeModel,
    obtained_ms: i64,
    now_ms: i64,
)
    requires
        device.fits(obtained_ms),
    ensures
        ({
            let (after, outcome) = manager.starting_flow(
                device,
                manager.login_epoch,
                obtained_ms,
                now_ms,
            );
            let life = if device.expires_in is Some {
                device.expires_in->0
            } else {
                900
            };
            let pending = after.pending_device_codes[device.device_auth_id];
            &&& outcome is Ok
            &&& outcome->Ok_0.device_code == device.device_auth_id
            &&& outcome->Ok_0.user_code == device.user_code
            &&& outcome->Ok_0.verification_uri == "https://auth.openai.com/codex/device"@
            &&& outcome->Ok_0.expires_in == life
            &&& outcome->Ok_0.interval == json::kept_interval(device.interval)
            &&& after == manager.registering(
                device.device_auth_id,
                pending,
                manager.login_epoch,
                now_ms,
            ).0
            &&& pending.user_code == device.user_code
            &&& life <= i64::MAX ==> pending.expires_at_ms == obtained_ms + life * 1000
            &&& life > i64::MAX ==> pending.expires_at_ms == obtained_ms + (life
                - 0x1_0000_0000_0000_0000) * 1000
        }),
{
}

/// A login that began before everything was cleared is refused, and changes nothing.
pub proof fn a_login_of_another_epoch_is_refused(
    manager: model::ManagerModel,
    device: model::DeviceCodeModel,
    login_epoch: u64,
    obtained_ms: i64,
    now_ms: i64,
)
    requires
        login_epoch != manager.login_epoch,
    ensures
        manager.starting_flow(device, login_epoch, obtained_ms, now_ms) == (
            manager,
            Err::<model::DeviceFlowModel, _>(error::ErrorModel::ExpiredToken),
        ),
{
}

/// Asking for the user code gives it for as long as the login waits. A login that has
/// expired is dropped, and it alone; one that is not there is an error.
pub proof fn the_user_code_is_given_until_the_login_expires(
    manager: model::ManagerModel,
    device_code: Seq<char>,
    now_ms: i64,
)
    ensures
        ({
            let (after, outcome) = manager.polling(device_code, now_ms);
            let there = manager.pending_device_codes.dom().contains(device_code);
            let pending = manager.pending_device_codes[device_code];
            &&& there && pending.expires_at_ms > now_ms ==> after == manager && outcome == Ok::<
                _,
                error::ErrorModel,
            >(pending.user_code)
            &&& there && pending.expires_at_ms <= now_ms ==> outcome == Err::<Seq<char>, _>(
                error::ErrorModel::ExpiredToken,
            ) && after == model::ManagerModel {
                pending_device_codes: manager.pending_device_codes.remove(device_code),
                ..manager
            }
            &&& !there ==> after == manager && outcome == Err::<Seq<char>, _>(
                error::ErrorModel::TokenFetchFailed(
                    "未找到对应的 user_code，请重新启动登录流程"@,
                ),
            )
        }),
{
}

/// An account that is added stands under its key with all that was told of it, in
/// place of whatever stood there. Its access token is the one that came with it, in
/// place of any earlier one, and there is none where none came. It becomes the chosen
/// default where none was chosen; the login that it completes is over; nothing else
/// changes.
pub proof fn an_account_is_added_with_all_that_came_with_it(
    manager: model::ManagerModel,
    new: model::NewAccountModel,
    authenticated_at: i64,
    now_ms: i64,
)
    requires
        new.device_code is Some ==> manager.pending_device_codes.dom().contains(
            new.device_code->0,
        ),
    ensures
        ({
            let (after, outcome) = manager.adding(new, authenticated_at, now_ms);
            let account = after.accounts[new.account_id];
            &&& outcome == Ok::<_, error::ErrorModel>(account.summary())
            &&& after.accounts == manager.accounts.insert(new.account_id, account)
            &&& account.account_id == new.account_id
            &&& account.email == new.email
            &&& account.chatgpt_account_id == new.chatgpt_account_id
            &&& account.refresh_token == new.refresh_token
            &&& account.id_token == new.id_token
            &&& account.authenticated_at == authenticated_at
            &&& account.token_updated_at_ms == now_ms
            &&& new.access_token is Some ==> after.access_tokens == manager.access_tokens.insert(
                new.account_id,
                new.access_token->0,
            )
            &&& new.access_token is None ==> after.access_tokens == manager.access_tokens.remove(
                new.account_id,
            )
            &&& manager.default_account_id is Some ==> after.default_account_id
                == manager.default_account_id
            &&& manager.default_account_id is None ==> after.default_account_id == Some(
                new.account_id,
            )
            &&& new.device_code is Some ==> after.pending_device_codes
                == manager.pending_device_codes.remove(new.device_code->0)
            &&& new.device_code is None ==> after.pending_device_codes
                == manager.pending_device_codes
            &&& after.login_epoch == manager.login_epoch
        }),
{
}

/// An account cannot complete a login that does not wait any more; nothing changes.
pub proof fn a_login_that_is_over_cannot_be_completed(
    manager: model::ManagerModel,
    new: model::NewAccountModel,
    authenticated_at: i64,
    now_ms: i64,
)
    requires
        new.device_code is Some,
        !manager.pending_device_codes.dom().contains(new.device_code->0),
    ensures
        manager.adding(new, authenticated_at, now_ms) == (
            manager,
            Err::<account::SummaryModel, _>(error::ErrorModel::ExpiredToken),
        ),
{
}

/// A login that succeeds leaves under the key that its tokens name an account with
/// their refresh token, their ID token where it is not blank, their email and their
/// workspace. The access token that is kept for it then is the one of the reply, with
/// the time at which it was obtained and the expiry that follows from its life,
/// whether or not there was one before.
pub proof fn a_login_keeps_the_tokens_of_the_reply(
    manager: model::ManagerModel,
    device_code: Seq<char>,
    tokens: account::TokensModel,
    times: LoginTimes,
)
    requires
        manager.pending_device_codes.dom().contains(device_code),
        tokens.refresh_token is Some,
        tokens.account_id() is Some,
        clock::fits_i64(
            times.life_from_ms + (if tokens.expires_in is Some {
                tokens.expires_in->0
            } else {
                3600
            }) * 1000,
        ),
    ensures
        ({
            let key = tokens.account_id()->0;
            let (after, outcome) = manager.logging_in(device_code, tokens, times);
            let account = after.accounts[key];
            let cached = after.access_tokens[key];
            let life = if tokens.expires_in is Some {
                tokens.expires_in->0
            } else {
                3600
            };
            &&& outcome == Ok::<_, error::ErrorModel>(account.summary())
            &&& after.accounts == manager.accounts.insert(key, account)
            &&& account.account_id == key
            &&& account.refresh_token == tokens.refresh_token->0
            &&& tokens.id_token is Some && !text::blank(tokens.id_token->0.text)
                ==> account.id_token == tokens.id_token
            &&& tokens.id_token is None || text::blank(tokens.id_token->0.text)
                ==> account.id_token is None
            &&& account.email == tokens.identity().email
            &&& account.chatgpt_account_id == tokens.workspace()
            &&& account.authenticated_at == times.authenticated_at
            &&& account.token_updated_at_ms == times.token_updated_at_ms
            &&& after.access_tokens == manager.access_tokens.insert(key, cached)
            &&& cached.token == tokens.access_token.text
            &&& cached.obtained_at_ms == times.obtained_at_ms
            &&& cached.expires_at_ms == times.life_from_ms + life * 1000
            &&& after.pending_device_codes == manager.pending_device_codes.remove(device_code)
            &&& manager.default_account_id is None ==> after.default_account_id == Some(key)
            &&& manager.default_account_id is Some ==> after.default_account_id
                == manager.default_account_id
            &&& after.login_epoch == manager.login_epoch
        }),
{
}

/// A login fails where the reply has no refresh token, where its tokens name nobody,
/// and where it does not wait any more, in this order; nothing changes then.
pub proof fn a_login_fails_for_one_of_three_reasons(
    manager: model::ManagerModel,
    device_code: Seq<char>,
    tokens: account::TokensModel,
    times: LoginTimes,
)
    ensures
        ({
            let (after, outcome) = manager.logging_in(device_code, tokens, times);
            let waits = manager.pending_device_codes.dom().contains(device_code);
            &&& tokens.refresh_token is None ==> outcome == Err::<account::SummaryModel, _>(
                error::ErrorModel::TokenFetchFailed("响应缺少 refresh_token"@),
            )
            &&& tokens.refresh_token is Some && tokens.account_id() is None ==> outcome == Err::<
                account::SummaryModel,
                _,
            >(error::ErrorModel::ParseError("无法从 token 中提取 account_id"@))
            &&& tokens.refresh_token is Some && tokens.account_id() is Some && !waits ==> outcome
                == Err::<account::SummaryModel, _>(error::ErrorModel::ExpiredToken)
            &&& outcome is Err <==> tokens.refresh_token is None || tokens.account_id() is None
                || !waits
            &&& outcome is Err ==> after == manager
        }),
{
}

/// An access token is kept for an account that is there, in place of any other, and
/// for no other account.
pub proof fn an_access_token_is_kept_for_its_account(
    manager: model::ManagerModel,
    account_id: Seq<char>,
    cached: account::CachedModel,
)
    ensures
        manager.accounts.dom().contains(account_id) ==> manager.caching(account_id, cached) == (
            model::ManagerModel {
                access_tokens: manager.access_tokens.insert(account_id, cached),
                ..manager
            },
            Ok::<(), error::ErrorModel>(()),
        ),
        !manager.accounts.dom().contains(account_id) ==> manager.caching(account_id, cached) == (
            manager,
            Err::<(), _>(error::ErrorModel::AccountNotFound(account_id)),
        ),
{
}

/// The kept access token of an account is used as it is exactly where at least a
/// minute is left of it; an account that is not there has none to use.
pub proof fn a_kept_token_is_used_until_its_last_minute(
    manager: model::ManagerModel,
    account_id: Seq<char>,
    now_ms: i64,
)
    ensures
        ({
            let there = manager.accounts.dom().contains(account_id);
            let kept = manager.access_tokens.dom().contains(account_id);
            let cached = manager.access_tokens[account_id];
            let outcome = manager.cached_token(account_id, now_ms);
            &&& there && kept && cached.expires_at_ms - now_ms >= 60_000 ==> outcome == Ok::<
                _,
                error::ErrorModel,
            >(Some(cached))
            &&& there && !(kept && cached.expires_at_ms - now_ms >= 60_000) ==> outcome == Ok::<
                Option<account::CachedModel>,
                error::ErrorModel,
            >(None)
            &&& !there ==> outcome == Err::<Option<account::CachedModel>, _>(
                error::ErrorModel::AccountNotFound(account_id),
            )
        }),
{
}

/// What is looked up is what stands under the key.
pub proof fn what_stands_under_a_key_is_looked_up<V>(map: Map<Seq<char>, V>, key: Seq<char>)
    ensures
        map.dom().contains(key) ==> model::lookup(map, key) == Some(map[key]),
        !map.dom().contains(key) ==> model::lookup(map, key) is None,
{
}

} // verus!
