//! The order of accounts: which one is the default, and how they are listed.
use crate::account;
use crate::account::{CodexAccountData, GitHubAccount};
use crate::table::Table;
use crate::text;
use crate::text::{same_opt, text_before};
use vstd::prelude::*;

verus! {

/// Whether the account `a` is taken as the default rather than the account `b`:
/// the one of the later login, and of two at the same time the one with the
/// smaller key.
pub open spec fn preferred(
    accounts: Map<Seq<char>, account::AccountModel>,
    a: Seq<char>,
    b: Seq<char>,
) -> bool {
    ||| accounts[a].authenticated_at > accounts[b].authenticated_at
    ||| accounts[a].authenticated_at == accounts[b].authenticated_at && text::text_less(a, b)
}

/// Whether `id` is taken as the default rather than any other account.
pub open spec fn most_preferred(
    accounts: Map<Seq<char>, account::AccountModel>,
    id: Seq<char>,
) -> bool {
    &&& accounts.dom().contains(id)
    &&& forall|other: Seq<char>|
        #[trigger] accounts.dom().contains(other) && other != id ==> preferred(accounts, id, other)
}

/// The account that is the default where none is chosen.
pub open spec fn fallback(accounts: Map<Seq<char>, account::AccountModel>) -> Option<Seq<char>> {
    if accounts == Map::<Seq<char>, account::AccountModel>::empty() {
        None
    } else {
        Some(choose|id: Seq<char>| most_preferred(accounts, id))
    }
}

/// There is at most one account that is preferred to all others.
proof fn lemma_most_preferred_is_fallback(
    accounts: Map<Seq<char>, account::AccountModel>,
    id: Seq<char>,
)
    requires
        most_preferred(accounts, id),
    ensures
        fallback(accounts) == Some(id),
{
    let chosen = choose|id: Seq<char>| most_preferred(accounts, id);
    assert(most_preferred(accounts, chosen));
    if chosen != id {
        assert(preferred(accounts, id, chosen));
        assert(preferred(accounts, chosen, id));
        text::text_order_is_total(id, chosen, id);
    }
}

/// The account that is the default where none is chosen: the one of the latest
/// login.
pub fn fallback_default_account_id(accounts: &Table<CodexAccountData>) -> (result: Option<String>)
    ensures
        text::view_opt(result) == fallback(accounts@),
        result is Some ==> most_preferred(accounts@, result->0@),
{
    if accounts.is_empty() {
        return None;
    }
    let len: usize = accounts.len();
    let ghost keys = accounts.keys();
    proof {
        if len == 0 {
            assert(accounts@.dom() =~= Set::empty());
            assert(accounts@ =~= Map::empty());
        }
    }
    let first = accounts.entry_at(0);
    let mut best: &str = first.0;
    let mut best_time: i64 = first.1.authenticated_at;
    let mut i: usize = 1;
    while i < len
        invariant
            1 <= i <= len == keys.len(),
            keys == accounts.keys(),
            keys.no_duplicates(),
            keys.to_set() == accounts@.dom(),
            accounts@.dom().contains(best@),
            best_time == accounts@[best@].authenticated_at,
            exists|j: int| 0 <= j < i && keys[j] == best@,
            forall|j: int|
                0 <= j < i && #[trigger] keys[j] != best@ ==> preferred(accounts@, best@, keys[j]),
        decreases len - i,
    {
        let (id, data) = accounts.entry_at(i);
        let time: i64 = data.authenticated_at;
        let ghost old_best = best@;
        if time > best_time || (time == best_time && text_before(id, best)) {
            proof {
                assert(preferred(accounts@, id@, old_best));
                assert forall|j: int| 0 <= j < i + 1 && #[trigger] keys[j] != id@ implies preferred(
                    accounts@,
                    id@,
                    keys[j],
                ) by {
                    if keys[j] != old_best {
                        text::text_order_is_total(id@, old_best, keys[j]);
                    }
                }
            }
            best = id;
            best_time = time;
            assert(keys[i as int] == best@);
        } else {
            proof {
                assert(keys[i as int] == id@);
                if id@ != old_best {
                    text::text_order_is_total(id@, old_best, id@);
                    assert(preferred(accounts@, old_best, id@));
                }
            }
        }
        i += 1;
    }
    proof {
        assert forall|other: Seq<char>|
            #[trigger] accounts@.dom().contains(other) && other != best@ implies preferred(
            accounts@,
            best@,
            other,
        ) by {
            assert(keys.to_set().contains(other));
            let j = keys.index_of(other);
            assert(keys[j] == other);
        }
        lemma_most_preferred_is_fallback(accounts@, best@);
    }
    Some(best.to_owned())
}

/// Whether `a` is listed before `b`: the default account first, then by the later
/// login, then by the name.
pub open spec fn listed_before(
    a: account::SummaryModel,
    b: account::SummaryModel,
    default_account_id: Option<Seq<char>>,
) -> bool {
    let a_default = default_account_id == Some(a.id);
    let b_default = default_account_id == Some(b.id);
    if a_default != b_default {
        a_default
    } else if a.authenticated_at != b.authenticated_at {
        a.authenticated_at > b.authenticated_at
    } else {
        text::text_less(a.login, b.login)
    }
}

/// The models of a list of accounts.
pub open spec fn summaries(list: Seq<GitHubAccount>) -> Seq<account::SummaryModel> {
    list.map_values(|shown: GitHubAccount| shown@)
}

/// Whether no account in `list` stands before one that is listed before it.
pub open spec fn in_order(
    list: Seq<account::SummaryModel>,
    default_account_id: Option<Seq<char>>,
) -> bool {
    forall|i: int, j: int|
        0 <= i < j < list.len() ==> !listed_before(
            #[trigger] list[j],
            #[trigger] list[i],
            default_account_id,
        )
}

/// Whether `list` shows the accounts under `keys`, in that order.
pub open spec fn shows_keys(
    accounts: Map<Seq<char>, account::AccountModel>,
    keys: Seq<Seq<char>>,
    list: Seq<account::SummaryModel>,
) -> bool {
    &&& keys.len() == list.len()
    &&& forall|i: int| 0 <= i < list.len() ==> #[trigger] list[i] == accounts[keys[i]].summary()
}

/// Whether `list` shows every account once.
pub open spec fn shows_all(
    accounts: Map<Seq<char>, account::AccountModel>,
    list: Seq<account::SummaryModel>,
) -> bool {
    exists|keys: Seq<Seq<char>>| #[trigger]
        shows_keys(accounts, keys, list) && keys.no_duplicates() && keys.to_set() == accounts.dom()
}

/// Whether `a` is listed before `b`.
fn is_listed_before(
    a: &GitHubAccount,
    b: &GitHubAccount,
    default_account_id: Option<&str>,
) -> (result: bool)
    ensures
        result == listed_before(a@, b@, text::view_opt(default_account_id)),
{
    let a_default = same_opt(default_account_id, Some(a.id.as_str()));
    let b_default = same_opt(default_account_id, Some(b.id.as_str()));
    if a_default != b_default {
        a_default
    } else if a.authenticated_at != b.authenticated_at {
        a.authenticated_at > b.authenticated_at
    } else {
        text_before(a.login.as_str(), b.login.as_str())
    }
}

proof fn lemma_listed_before_transitive(
    a: account::SummaryModel,
    b: account::SummaryModel,
    c: account::SummaryModel,
    default_account_id: Option<Seq<char>>,
)
    ensures
        listed_before(a, b, default_account_id) && listed_before(b, c, default_account_id)
            ==> listed_before(a, c, default_account_id),
{
    text::text_order_is_total(a.login, b.login, c.login);
}

/// Puts `item` into its place in an ordered list, and returns the place.
fn insert_in_order(
    list: &mut Vec<GitHubAccount>,
    item: GitHubAccount,
    default_account_id: Option<&str>,
) -> (place: usize)
    requires
        in_order(summaries(old(list)@), text::view_opt(default_account_id)),
    ensures
        place <= old(list)@.len(),
        summaries(final(list)@) == summaries(old(list)@).insert(place as int, item@),
        in_order(summaries(final(list)@), text::view_opt(default_account_id)),
{
    let ghost before = summaries(list@);
    let ghost default_id = text::view_opt(default_account_id);
    let ghost shown = item@;
    let mut place: usize = 0;
    while place < list.len() && !is_listed_before(&item, &list[place], default_account_id)
        invariant
            place <= list@.len(),
            before == summaries(list@),
            default_id == text::view_opt(default_account_id),
            shown == item@,
            forall|j: int| 0 <= j < place ==> !listed_before(shown, #[trigger] before[j], default_id),
        decreases list@.len() - place,
    {
        assert(before[place as int] == list@[place as int]@);
        place += 1;
    }
    proof {
        if place < list@.len() {
            assert(before[place as int] == list@[place as int]@);
            assert(listed_before(shown, before[place as int], default_id));
        }
    }
    list.insert(place, item);
    proof {
        let after = summaries(list@);
        assert(after =~= before.insert(place as int, shown));
        assert forall|i: int, j: int| 0 <= i < j < after.len() implies !listed_before(
            #[trigger] after[j],
            #[trigger] after[i],
            default_id,
        ) by {
            if i < place && j == place {
                assert(after[i] == before[i]);
            } else if i == place {
                assert(after[j] == before[j - 1]);
                if j - 1 > place {
                    assert(!listed_before(before[j - 1], before[place as int], default_id));
                    lemma_listed_before_transitive(
                        before[j - 1],
                        shown,
                        before[place as int],
                        default_id,
                    );
                } else {
                    lemma_listed_before_transitive(
                        before[j - 1],
                        shown,
                        before[j - 1],
                        default_id,
                    );
                    text::text_order_is_total(
                        before[j - 1].login,
                        before[j - 1].login,
                        before[j - 1].login,
                    );
                }
            } else {
                let x = if i < place {
                    i
                } else {
                    i - 1
                };
                let y = if j < place {
                    j
                } else {
                    j - 1
                };
                assert(after[i] == before[x]);
                assert(after[j] == before[y]);
            }
        }
    }
    place
}

/// The accounts as they are listed.
pub fn sorted_accounts(
    accounts: &Table<CodexAccountData>,
    default_account_id: Option<&str>,
) -> (result: Vec<GitHubAccount>)
    ensures
        shows_all(accounts@, summaries(result@)),
        in_order(summaries(result@), text::view_opt(default_account_id)),
        result@.len() == accounts@.dom().len(),
{
    let len: usize = accounts.len();
    let ghost all = accounts.keys();
    let ghost mut keys: Seq<Seq<char>> = seq![];
    let mut list: Vec<GitHubAccount> = Vec::new();
    let mut i: usize = 0;
    while i < len
        invariant
            i <= len == all.len(),
            all == accounts.keys(),
            all.no_duplicates(),
            all.to_set() == accounts@.dom(),
            len == accounts@.dom().len(),
            list@.len() == i,
            keys.no_duplicates(),
            forall|k: Seq<char>|
                #[trigger] keys.contains(k) <==> exists|j: int| 0 <= j < i && all[j] == k,
            shows_keys(accounts@, keys, summaries(list@)),
            in_order(summaries(list@), text::view_opt(default_account_id)),
        decreases len - i,
    {
        let (key, data) = accounts.entry_at(i);
        let shown = GitHubAccount::from_account(data);
        let ghost before = summaries(list@);
        let ghost old_keys = keys;
        let place = insert_in_order(&mut list, shown, default_account_id);
        proof {
            keys = old_keys.insert(place as int, key@);
            assert(key@ == all[i as int]);
            assert(!old_keys.contains(key@));
            lemma_insert_key(old_keys, key@, place as int);
            let after = summaries(list@);
            assert forall|k: Seq<char>| #[trigger] keys.contains(k) <==> exists|j: int|
                0 <= j < i + 1 && all[j] == k by {
                if keys.contains(k) {
                    if k == key@ {
                        assert(all[i as int] == k);
                    } else {
                        assert(old_keys.contains(k));
                    }
                }
            }
            assert forall|n: int| 0 <= n < after.len() implies #[trigger] after[n]
                == accounts@[keys[n]].summary() by {
                if n < place {
                    assert(after[n] == before[n]);
                } else if n > place {
                    assert(after[n] == before[n - 1]);
                }
            }
        }
        i += 1;
    }
    proof {
        assert(keys.to_set() =~= all.to_set());
        assert(shows_keys(accounts@, keys, summaries(list@)));
    }
    list
}

proof fn lemma_insert_key(keys: Seq<Seq<char>>, key: Seq<char>, place: int)
    requires
        keys.no_duplicates(),
        !keys.contains(key),
        0 <= place <= keys.len(),
    ensures
        keys.insert(place, key).no_duplicates(),
        forall|k: Seq<char>| #[trigger]
            keys.insert(place, key).contains(k) <==> keys.contains(k) || k == key,
{
    let longer = keys.insert(place, key);
    assert forall|k: Seq<char>| #[trigger] longer.contains(k) <==> keys.contains(k) || k == key by {
        if longer.contains(k) {
            let n = longer.index_of(k);
            if n < place {
                assert(keys[n] == k);
            } else if n > place {
                assert(keys[n - 1] == k);
            }
        }
        if keys.contains(k) {
            let n = keys.index_of(k);
            if n < place {
                assert(longer[n] == k);
            } else {
                assert(longer[n + 1] == k);
            }
        }
        if k == key {
            assert(longer[place] == k);
        }
    }
    assert forall|a: int, b: int| 0 <= a < longer.len() && 0 <= b < longer.len() && a != b
        implies longer[a] != longer[b] by {
        let x = if a < place {
            a
        } else {
            a - 1
        };
        let y = if b < place {
            b
        } else {
            b - 1
        };
        if a != place {
            assert(longer[a] == keys[x]);
        }
        if b != place {
            assert(longer[b] == keys[y]);
        }
    }
}

} // verus!
