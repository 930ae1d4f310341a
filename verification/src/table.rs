//! Keyed tables of per-account state.
//!
//! Each per-account map of the ledger (balances, opt-in flags, frozen flags)
//! is a vector of key/value pairs whose keys are pairwise distinct. A key
//! that is absent carries the map's default value (zero, or false): the
//! ledger's spec functions read `find` returning `None` as that default.

use crate::account::AccountId;
use vstd::prelude::*;

verus! {

/// The value bound to `key`, or `None` where `key` is absent.
pub open spec fn find<V>(entries: Seq<(AccountId, V)>, key: AccountId) -> Option<V>
    decreases entries.len(),
{
    if entries.len() == 0 {
        None
    } else if entries[0].0 == key {
        Some(entries[0].1)
    } else {
        find(entries.drop_first(), key)
    }
}

/// No two entries bind the same key.
pub open spec fn distinct_keys<V>(entries: Seq<(AccountId, V)>) -> bool {
    forall|i: int, j: int| 0 <= i < j < entries.len() ==> entries[i].0 != entries[j].0
}

/// The amount bound to `key`, with zero for an absent key.
pub open spec fn amount_of(entries: Seq<(AccountId, u128)>, key: AccountId) -> u128 {
    match find(entries, key) {
        Some(v) => v,
        None => 0,
    }
}

/// The flag bound to `key`, with false for an absent key.
pub open spec fn flag_of(entries: Seq<(AccountId, bool)>, key: AccountId) -> bool {
    match find(entries, key) {
        Some(b) => b,
        None => false,
    }
}

/// The sum of all amounts bound in the table.
pub open spec fn sum_amounts(entries: Seq<(AccountId, u128)>) -> int
    decreases entries.len(),
{
    if entries.len() == 0 {
        0
    } else {
        entries[0].1 + sum_amounts(entries.drop_first())
    }
}

/// The sum of a table is non-negative, and no single binding exceeds it.
pub proof fn lemma_sum_bounds(entries: Seq<(AccountId, u128)>, key: AccountId)
    ensures
        sum_amounts(entries) >= 0,
        find(entries, key) matches Some(v) ==> v <= sum_amounts(entries),
    decreases entries.len(),
{
    if entries.len() > 0 {
        lemma_sum_bounds(entries.drop_first(), key);
    }
}

/// The amounts bound to two different keys never jointly exceed the sum.
pub proof fn lemma_sum_bounds_pair(entries: Seq<(AccountId, u128)>, a: AccountId, b: AccountId)
    requires
        a != b,
    ensures
        amount_of(entries, a) + amount_of(entries, b) <= sum_amounts(entries),
    decreases entries.len(),
{
    if entries.len() == 0 {
        assert(find(entries, a) is None);
        assert(find(entries, b) is None);
    } else {
        let rest = entries.drop_first();
        if entries[0].0 == a {
            lemma_sum_bounds(rest, b);
        } else if entries[0].0 == b {
            lemma_sum_bounds(rest, a);
        } else {
            lemma_sum_bounds_pair(rest, a, b);
        }
    }
}

/// Updating the first binding of `key` rebinds `key` alone.
proof fn lemma_find_update<V>(entries: Seq<(AccountId, V)>, i: int, key: AccountId, value: V)
    requires
        0 <= i < entries.len(),
        entries[i].0 == key,
        forall|j: int| 0 <= j < i ==> entries[j].0 != key,
    ensures
        find(entries.update(i, (key, value)), key) == Some(value),
        forall|x: AccountId|
            x != key ==> find(entries.update(i, (key, value)), x) == find(entries, x),
    decreases i,
{
    let t = entries.update(i, (key, value));
    if i == 0 {
        assert(t.drop_first() =~= entries.drop_first());
        assert(find(t, key) == Some(value));
        assert forall|x: AccountId| x != key implies find(t, x) == find(entries, x) by {
            assert(find(t, x) == find(t.drop_first(), x));
            assert(find(entries, x) == find(entries.drop_first(), x));
        }
    } else {
        assert(t.drop_first() =~= entries.drop_first().update(i - 1, (key, value)));
        lemma_find_update(entries.drop_first(), i - 1, key, value);
        assert(t[0] == entries[0]);
        assert(find(t, key) == Some(value));
        assert forall|x: AccountId| x != key implies find(t, x) == find(entries, x) by {
            if entries[0].0 != x {
                assert(find(t, x) == find(t.drop_first(), x));
                assert(find(entries, x) == find(entries.drop_first(), x));
            }
        }
    }
}

/// Updating one entry shifts the sum by the difference of the amounts.
proof fn lemma_sum_update(entries: Seq<(AccountId, u128)>, i: int, e: (AccountId, u128))
    requires
        0 <= i < entries.len(),
    ensures
        sum_amounts(entries.update(i, e)) == sum_amounts(entries) - entries[i].1 + e.1,
    decreases i,
{
    let t = entries.update(i, e);
    if i == 0 {
        assert(t.drop_first() =~= entries.drop_first());
    } else {
        assert(t.drop_first() =~= entries.drop_first().update(i - 1, e));
        lemma_sum_update(entries.drop_first(), i - 1, e);
        assert(t[0] == entries[0]);
    }
}

/// What `find` yields after a push: the old binding where one exists,
/// else the pushed binding where the key matches.
proof fn lemma_find_push<V>(entries: Seq<(AccountId, V)>, e: (AccountId, V), x: AccountId)
    ensures
        find(entries.push(e), x) == (match find(entries, x) {
            Some(v) => Some(v),
            None => if e.0 == x {
                Some(e.1)
            } else {
                None::<V>
            },
        }),
    decreases entries.len(),
{
    let t = entries.push(e);
    if entries.len() == 0 {
        assert(t[0] == e);
        assert(t.drop_first() =~= Seq::<(AccountId, V)>::empty());
    } else {
        assert(t[0] == entries[0]);
        assert(t.drop_first() =~= entries.drop_first().push(e));
        lemma_find_push(entries.drop_first(), e, x);
    }
}

/// Pushing an entry adds its amount to the sum.
proof fn lemma_sum_push(entries: Seq<(AccountId, u128)>, e: (AccountId, u128))
    ensures
        sum_amounts(entries.push(e)) == sum_amounts(entries) + e.1,
    decreases entries.len(),
{
    let t = entries.push(e);
    if entries.len() == 0 {
        assert(t[0] == e);
        assert(t.drop_first() =~= Seq::<(AccountId, u128)>::empty());
        assert(sum_amounts(Seq::<(AccountId, u128)>::empty()) == 0);
    } else {
        assert(t[0] == entries[0]);
        assert(t.drop_first() =~= entries.drop_first().push(e));
        lemma_sum_push(entries.drop_first(), e);
    }
}

/// Looks `key` up in `entries`.
pub fn lookup<V: Copy>(entries: &Vec<(AccountId, V)>, key: &AccountId) -> (r: Option<V>)
    ensures
        r == find(entries@, *key),
{
    let n = entries.len();
    let mut i: usize = 0;
    proof {
        assert(entries@.skip(0) =~= entries@);
    }
    while i < n
        invariant
            0 <= i <= n,
            n == entries@.len(),
            find(entries@, *key) == find(entries@.skip(i as int), *key),
        decreases n - i,
    {
        proof {
            assert(entries@.skip(i as int)[0] == entries@[i as int]);
        }
        if entries[i].0 == *key {
            return Some(entries[i].1);
        }
        proof {
            assert(entries@.skip(i as int).drop_first() =~= entries@.skip(i as int + 1));
        }
        i = i + 1;
    }
    proof {
        assert(entries@.skip(n as int) =~= Seq::<(AccountId, V)>::empty());
    }
    None
}

/// Binds `key` to `amount`, leaving every other binding as it was.
pub fn store_amount(entries: &mut Vec<(AccountId, u128)>, key: AccountId, amount: u128)
    ensures
        find(final(entries)@, key) == Some(amount),
        forall|x: AccountId| x != key ==> find(final(entries)@, x) == find(old(entries)@, x),
        distinct_keys(old(entries)@) ==> distinct_keys(final(entries)@),
        sum_amounts(final(entries)@) == sum_amounts(old(entries)@) - amount_of(
            old(entries)@,
            key,
        ) + amount,
{
    let ghost s = entries@;
    let n = entries.len();
    let mut i: usize = 0;
    proof {
        assert(s.skip(0) =~= s);
    }
    while i < n
        invariant
            0 <= i <= n,
            n == s.len(),
            s == old(entries)@,
            entries@ == s,
            find(s, key) == find(s.skip(i as int), key),
            forall|j: int| 0 <= j < i ==> s[j].0 != key,
        decreases n - i,
    {
        proof {
            assert(s.skip(i as int)[0] == s[i as int]);
        }
        if entries[i].0 == key {
            let ghost oldv = s[i as int].1;
            entries[i] = (key, amount);
            proof {
                assert(entries@ == s.update(i as int, (key, amount)));
                lemma_find_update(s, i as int, key, amount);
                lemma_sum_update(s, i as int, (key, amount));
                assert(find(s, key) == Some(oldv));
                assert forall|m: int, p: int|
                    0 <= m < p < entries@.len() && distinct_keys(s) implies entries@[m].0
                    != entries@[p].0 by {
                    assert(entries@[m].0 == s[m].0);
                    assert(entries@[p].0 == s[p].0);
                }
            }
            return ;
        }
        proof {
            assert(s.skip(i as int).drop_first() =~= s.skip(i as int + 1));
        }
        i = i + 1;
    }
    proof {
        assert(s.skip(n as int) =~= Seq::<(AccountId, u128)>::empty());
        assert(find(s, key) is None);
    }
    entries.push((key, amount));
    proof {
        assert(entries@ == s.push((key, amount)));
        assert forall|x: AccountId| true implies find(entries@, x) == (match find(s, x) {
            Some(v) => Some(v),
            None => if x == key {
                Some(amount)
            } else {
                None::<u128>
            },
        }) by {
            lemma_find_push(s, (key, amount), x);
        }
        lemma_sum_push(s, (key, amount));
        assert forall|m: int, p: int|
            0 <= m < p < entries@.len() && distinct_keys(s) implies entries@[m].0
            != entries@[p].0 by {
            assert(entries@[m].0 == s[m].0);
            if p < s.len() {
                assert(entries@[p].0 == s[p].0);
            } else {
                assert(entries@[p].0 == key);
            }
        }
    }
}

/// Binds `key` to `flag`, leaving every other binding as it was.
pub fn store_flag(entries: &mut Vec<(AccountId, bool)>, key: AccountId, flag: bool)
    ensures
        find(final(entries)@, key) == Some(flag),
        forall|x: AccountId| x != key ==> find(final(entries)@, x) == find(old(entries)@, x),
        distinct_keys(old(entries)@) ==> distinct_keys(final(entries)@),
{
    let ghost s = entries@;
    let n = entries.len();
    let mut i: usize = 0;
    proof {
        assert(s.skip(0) =~= s);
    }
    while i < n
        invariant
            0 <= i <= n,
            n == s.len(),
            s == old(entries)@,
            entries@ == s,
            find(s, key) == find(s.skip(i as int), key),
            forall|j: int| 0 <= j < i ==> s[j].0 != key,
        decreases n - i,
    {
        proof {
            assert(s.skip(i as int)[0] == s[i as int]);
        }
        if entries[i].0 == key {
            entries[i] = (key, flag);
            proof {
                assert(entries@ == s.update(i as int, (key, flag)));
                lemma_find_update(s, i as int, key, flag);
                assert forall|m: int, p: int|
                    0 <= m < p < entries@.len() && distinct_keys(s) implies entries@[m].0
                    != entries@[p].0 by {
                    assert(entries@[m].0 == s[m].0);
                    assert(entries@[p].0 == s[p].0);
                }
            }
            return ;
        }
        proof {
            assert(s.skip(i as int).drop_first() =~= s.skip(i as int + 1));
        }
        i = i + 1;
    }
    proof {
        assert(s.skip(n as int) =~= Seq::<(AccountId, bool)>::empty());
        assert(find(s, key) is None);
    }
    entries.push((key, flag));
    proof {
        assert(entries@ == s.push((key, flag)));
        assert forall|x: AccountId| true implies find(entries@, x) == (match find(s, x) {
            Some(v) => Some(v),
            None => if x == key {
                Some(flag)
            } else {
                None::<bool>
            },
        }) by {
            lemma_find_push(s, (key, flag), x);
        }
        assert forall|m: int, p: int|
            0 <= m < p < entries@.len() && distinct_keys(s) implies entries@[m].0
            != entries@[p].0 by {
            assert(entries@[m].0 == s[m].0);
            if p < s.len() {
                assert(entries@[p].0 == s[p].0);
            } else {
                assert(entries@[p].0 == key);
            }
        }
    }
}

} // verus!
