use vstd::prelude::*;

verus! {

/// Account balances as a list of `(account, balance)` entries.
/// An account without an entry holds zero.
pub type Entries = Seq<(u64, u64)>;

/// No account has two entries.
pub open spec fn keys_unique(s: Entries) -> bool {
    forall|i: int, j: int| 0 <= i < j < s.len() ==> s[i].0 != s[j].0
}

/// The balance of `a` in `s`.
pub open spec fn balance_in(s: Entries, a: u64) -> nat
    decreases s.len(),
{
    if s.len() == 0 {
        0
    } else if s.last().0 == a {
        s.last().1 as nat
    } else {
        balance_in(s.drop_last(), a)
    }
}

/// The sum of all balances in `s`.
pub open spec fn sum_of(s: Entries) -> nat
    decreases s.len(),
{
    if s.len() == 0 {
        0
    } else {
        sum_of(s.drop_last()) + s.last().1 as nat
    }
}

/// The balance of an account with no entry is zero.
pub proof fn lemma_balance_absent(s: Entries, a: u64)
    requires
        forall|i: int| 0 <= i < s.len() ==> s[i].0 != a,
    ensures
        balance_in(s, a) == 0,
    decreases s.len(),
{
    if s.len() > 0 {
        lemma_balance_absent(s.drop_last(), a);
    }
}

/// The balance of an account is the value of its entry.
pub proof fn lemma_balance_at(s: Entries, i: int)
    requires
        keys_unique(s),
        0 <= i < s.len(),
    ensures
        balance_in(s, s[i].0) == s[i].1,
    decreases s.len(),
{
    if i < s.len() - 1 {
        lemma_balance_at(s.drop_last(), i);
    }
}

/// Replacing the value of one entry changes the sum by the difference.
pub proof fn lemma_sum_update(s: Entries, i: int, v: u64)
    requires
        0 <= i < s.len(),
    ensures
        sum_of(s.update(i, (s[i].0, v))) + s[i].1 == sum_of(s) + v,
    decreases s.len(),
{
    let t = s.update(i, (s[i].0, v));
    if i < s.len() - 1 {
        assert(t.drop_last() =~= s.drop_last().update(i, (s[i].0, v)));
        lemma_sum_update(s.drop_last(), i, v);
    } else {
        assert(t.drop_last() =~= s.drop_last());
    }
}

/// Appending an entry adds its value to the sum.
pub proof fn lemma_sum_push(s: Entries, e: (u64, u64))
    ensures
        sum_of(s.push(e)) == sum_of(s) + e.1,
{
    assert(s.push(e).drop_last() =~= s);
}

/// `s` with the balance of `a` set to `v`: the entry of `a` is overwritten in
/// place, or a new entry is appended where `a` has none.
pub open spec fn set_entry(s: Entries, a: u64, v: u64) -> Entries {
    if exists|i: int| 0 <= i < s.len() && s[i].0 == a {
        s.update(choose|i: int| 0 <= i < s.len() && s[i].0 == a, (a, v))
    } else {
        s.push((a, v))
    }
}

/// Overwriting one entry keeps the balance of every other account.
pub proof fn lemma_balance_update_other(s: Entries, i: int, v: u64, b: u64)
    requires
        0 <= i < s.len(),
        s[i].0 != b,
    ensures
        balance_in(s.update(i, (s[i].0, v)), b) == balance_in(s, b),
    decreases s.len(),
{
    let t = s.update(i, (s[i].0, v));
    if i < s.len() - 1 {
        assert(t.drop_last() =~= s.drop_last().update(i, (s[i].0, v)));
        lemma_balance_update_other(s.drop_last(), i, v, b);
    } else {
        assert(t.drop_last() =~= s.drop_last());
    }
}

/// What setting a balance does to balances, to the sum and to key uniqueness.
pub proof fn lemma_set_entry(s: Entries, a: u64, v: u64)
    requires
        keys_unique(s),
    ensures
        keys_unique(set_entry(s, a, v)),
        balance_in(set_entry(s, a, v), a) == v,
        forall|b: u64| b != a ==> balance_in(set_entry(s, a, v), b) == balance_in(s, b),
        sum_of(set_entry(s, a, v)) + balance_in(s, a) == sum_of(s) + v,
{
    let t = set_entry(s, a, v);
    if exists|i: int| 0 <= i < s.len() && s[i].0 == a {
        let i = choose|i: int| 0 <= i < s.len() && s[i].0 == a;
        assert(t == s.update(i, (s[i].0, v)));
        assert(keys_unique(t)) by {
            assert forall|j: int, k: int| 0 <= j < k < t.len() implies t[j].0 != t[k].0 by {
                assert(t[j].0 == s[j].0 && t[k].0 == s[k].0);
            }
        }
        lemma_balance_at(t, i);
        lemma_balance_at(s, i);
        lemma_sum_update(s, i, v);
        assert forall|b: u64| b != a implies balance_in(t, b) == balance_in(s, b) by {
            lemma_balance_update_other(s, i, v, b);
        }
    } else {
        assert(t == s.push((a, v)));
        assert(t.drop_last() =~= s);
        lemma_balance_absent(s, a);
        lemma_sum_push(s, (a, v));
    }
}

/// The balance of `a` recorded in `v`.
pub fn balance_of(v: &Vec<(u64, u64)>, a: u64) -> (r: u64)
    requires
        keys_unique(v@),
    ensures
        r == balance_in(v@, a),
{
    match find_entry(v, a) {
        Some(i) => {
            proof {
                lemma_balance_at(v@, i as int);
            }
            v[i].1
        },
        None => {
            proof {
                lemma_balance_absent(v@, a);
            }
            0
        },
    }
}

/// Sets the balance of `a` in `v` to `val`.
pub fn set_balance(v: &mut Vec<(u64, u64)>, a: u64, val: u64)
    requires
        keys_unique(old(v)@),
    ensures
        final(v)@ == set_entry(old(v)@, a, val),
{
    match find_entry(v, a) {
        Some(i) => {
            proof {
                let j = choose|j: int| 0 <= j < old(v)@.len() && old(v)@[j].0 == a;
                assert(j == i as int);
            }
            v.set(i, (a, val));
        },
        None => {
            v.push((a, val));
        },
    }
}

/// No balance exceeds the sum.
pub proof fn lemma_balance_le_sum(s: Entries, a: u64)
    ensures
        balance_in(s, a) <= sum_of(s),
    decreases s.len(),
{
    if s.len() > 0 && s.last().0 != a {
        lemma_balance_le_sum(s.drop_last(), a);
    }
}

/// The index of the entry of `a`, if there is one.
pub fn find_entry(v: &Vec<(u64, u64)>, a: u64) -> (r: Option<usize>)
    ensures
        match r {
            Some(i) => i < v@.len() && v@[i as int].0 == a,
            None => forall|i: int| 0 <= i < v@.len() ==> v@[i].0 != a,
        },
{
    let mut i: usize = 0;
    while i < v.len()
        invariant
            i <= v@.len(),
            forall|j: int| 0 <= j < i ==> v@[j].0 != a,
        decreases v@.len() - i,
    {
        if v[i].0 == a {
            return Some(i);
        }
        i = i + 1;
    }
    None
}

} // verus!
