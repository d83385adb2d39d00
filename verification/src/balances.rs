use vstd::prelude::*;

use crate::account::AccountId;
use crate::account::Balance;

verus! {

/// The recorded amount for key `k` in an association sequence; absent keys
/// read as zero, and only the first entry for a key counts.
pub open spec fn lookup(s: Seq<(AccountId, Balance)>, k: AccountId) -> Balance
    decreases s.len(),
{
    if s.len() == 0 {
        0
    } else if s[0].0 == k {
        s[0].1
    } else {
        lookup(s.drop_first(), k)
    }
}

/// The sum of all recorded amounts.
pub open spec fn sum_of(s: Seq<(AccountId, Balance)>) -> int
    decreases s.len(),
{
    if s.len() == 0 {
        0
    } else {
        s[0].1 + sum_of(s.drop_first())
    }
}

/// Every key occurs at most once.
pub open spec fn unique_keys(s: Seq<(AccountId, Balance)>) -> bool {
    forall|i: int, j: int| 0 <= i < j < s.len() ==> (#[trigger] s[i]).0 != (#[trigger] s[j]).0
}

proof fn lemma_sum_nonneg(s: Seq<(AccountId, Balance)>)
    ensures
        sum_of(s) >= 0,
    decreases s.len(),
{
    if s.len() > 0 {
        lemma_sum_nonneg(s.drop_first());
    }
}

/// No single recorded amount exceeds the sum of all of them.
pub proof fn lemma_lookup_le_sum(s: Seq<(AccountId, Balance)>, k: AccountId)
    ensures
        lookup(s, k) <= sum_of(s),
    decreases s.len(),
{
    if s.len() == 0 {
    } else if s[0].0 == k {
        lemma_sum_nonneg(s.drop_first());
    } else {
        lemma_lookup_le_sum(s.drop_first(), k);
    }
}

proof fn lemma_lookup_at(s: Seq<(AccountId, Balance)>, k: AccountId, i: int)
    requires
        0 <= i < s.len(),
        s[i].0 == k,
        forall|j: int| 0 <= j < i ==> (#[trigger] s[j]).0 != k,
    ensures
        lookup(s, k) == s[i].1,
    decreases i,
{
    if i > 0 {
        assert(s[0].0 != k);
        assert(forall|j: int| 0 <= j < i - 1 ==> (#[trigger] s.drop_first()[j]).0 != k);
        lemma_lookup_at(s.drop_first(), k, i - 1);
    }
}

proof fn lemma_lookup_absent(s: Seq<(AccountId, Balance)>, k: AccountId)
    requires
        forall|j: int| 0 <= j < s.len() ==> (#[trigger] s[j]).0 != k,
    ensures
        lookup(s, k) == 0,
    decreases s.len(),
{
    if s.len() > 0 {
        assert(forall|j: int| 0 <= j < s.len() - 1 ==> (#[trigger] s.drop_first()[j]).0 != k);
        lemma_lookup_absent(s.drop_first(), k);
    }
}

proof fn lemma_sum_update(s: Seq<(AccountId, Balance)>, i: int, x: (AccountId, Balance))
    requires
        0 <= i < s.len(),
    ensures
        sum_of(s.update(i, x)) == sum_of(s) - s[i].1 + x.1,
    decreases i,
{
    let t = s.update(i, x);
    if i == 0 {
        assert(t.drop_first() =~= s.drop_first());
    } else {
        assert(t.drop_first() =~= s.drop_first().update(i - 1, x));
        lemma_sum_update(s.drop_first(), i - 1, x);
    }
}

proof fn lemma_sum_push(s: Seq<(AccountId, Balance)>, x: (AccountId, Balance))
    ensures
        sum_of(s.push(x)) == sum_of(s) + x.1,
    decreases s.len(),
{
    let t = s.push(x);
    if s.len() == 0 {
        assert(t.drop_first() =~= Seq::<(AccountId, Balance)>::empty());
        assert(sum_of(t.drop_first()) == 0);
        assert(t[0] == x);
    } else {
        assert(t[0] == s[0]);
        assert(t.drop_first() =~= s.drop_first().push(x));
        lemma_sum_push(s.drop_first(), x);
    }
}

proof fn lemma_lookup_update_other(
    s: Seq<(AccountId, Balance)>,
    i: int,
    x: (AccountId, Balance),
    k2: AccountId,
)
    requires
        0 <= i < s.len(),
        s[i].0 == x.0,
        k2 != x.0,
    ensures
        lookup(s.update(i, x), k2) == lookup(s, k2),
    decreases i,
{
    let t = s.update(i, x);
    if i == 0 {
        assert(t.drop_first() =~= s.drop_first());
    } else {
        assert(t[0] == s[0]);
        if s[0].0 != k2 {
            assert(t.drop_first() =~= s.drop_first().update(i - 1, x));
            lemma_lookup_update_other(s.drop_first(), i - 1, x, k2);
        }
    }
}

proof fn lemma_lookup_push_other(
    s: Seq<(AccountId, Balance)>,
    x: (AccountId, Balance),
    k2: AccountId,
)
    requires
        k2 != x.0,
    ensures
        lookup(s.push(x), k2) == lookup(s, k2),
    decreases s.len(),
{
    let t = s.push(x);
    if s.len() == 0 {
        assert(t[0] == x);
        assert(t.drop_first() =~= Seq::<(AccountId, Balance)>::empty());
        assert(lookup(t.drop_first(), k2) == 0);
        assert(lookup(s, k2) == 0);
    } else {
        assert(t[0] == s[0]);
        if s[0].0 != k2 {
            assert(t.drop_first() =~= s.drop_first().push(x));
            lemma_lookup_push_other(s.drop_first(), x, k2);
        }
    }
}

proof fn lemma_lookup_push_self(s: Seq<(AccountId, Balance)>, x: (AccountId, Balance))
    requires
        forall|j: int| 0 <= j < s.len() ==> (#[trigger] s[j]).0 != x.0,
    ensures
        lookup(s.push(x), x.0) == x.1,
    decreases s.len(),
{
    let t = s.push(x);
    if s.len() == 0 {
        assert(t[0] == x);
    } else {
        assert(t[0] == s[0]);
        assert(s[0].0 != x.0);
        assert(t.drop_first() =~= s.drop_first().push(x));
        assert(forall|j: int| 0 <= j < s.len() - 1 ==> (#[trigger] s.drop_first()[j]).0 != x.0);
        lemma_lookup_push_self(s.drop_first(), x);
    }
}

/// A sparse balance store: an association vector with at most one entry per
/// account, read through `lookup` with absent accounts holding zero.
pub struct BalanceTable {
    entries: Vec<(AccountId, Balance)>,
}

impl View for BalanceTable {
    type V = Seq<(AccountId, Balance)>;

    closed spec fn view(&self) -> Seq<(AccountId, Balance)> {
        self.entries@
    }
}

fn find_key(entries: &Vec<(AccountId, Balance)>, k: AccountId) -> (r: Option<usize>)
    ensures
        match r {
            Some(i) => i < entries@.len() && entries@[i as int].0 == k && (forall|j: int|
                0 <= j < i ==> (#[trigger] entries@[j]).0 != k),
            None => forall|j: int| 0 <= j < entries@.len() ==> (#[trigger] entries@[j]).0 != k,
        },
{
    let mut i: usize = 0;
    while i < entries.len()
        invariant
            i <= entries@.len(),
            forall|j: int| 0 <= j < i ==> (#[trigger] entries@[j]).0 != k,
        decreases entries@.len() - i,
    {
        if entries[i].0 == k {
            return Some(i);
        }
        i = i + 1;
    }
    None
}

impl BalanceTable {
    pub fn new() -> (t: BalanceTable)
        ensures
            t@.len() == 0,
    {
        BalanceTable { entries: Vec::new() }
    }

    pub fn get(&self, k: AccountId) -> (r: Balance)
        ensures
            r == lookup(self@, k),
    {
        match find_key(&self.entries, k) {
            Some(i) => {
                proof {
                    lemma_lookup_at(self.entries@, k, i as int);
                }
                self.entries[i].1
            },
            None => {
                proof {
                    lemma_lookup_absent(self.entries@, k);
                }
                0
            },
        }
    }

    /// Record amount `v` for account `k`, overwriting any previous entry.
    pub fn set(&mut self, k: AccountId, v: Balance)
        requires
            unique_keys(old(self)@),
        ensures
            unique_keys(final(self)@),
            lookup(final(self)@, k) == v,
            forall|k2: AccountId| k2 != k ==> lookup(final(self)@, k2) == lookup(old(self)@, k2),
            sum_of(final(self)@) == sum_of(old(self)@) - lookup(old(self)@, k) + v,
    {
        let ghost s0 = self.entries@;
        match find_key(&self.entries, k) {
            Some(i) => {
                self.entries.set(i, (k, v));
                proof {
                    lemma_lookup_at(s0, k, i as int);
                    lemma_sum_update(s0, i as int, (k, v));
                    lemma_lookup_at(self.entries@, k, i as int);
                    assert forall|k2: AccountId| k2 != k implies lookup(self.entries@, k2)
                        == lookup(s0, k2) by {
                        lemma_lookup_update_other(s0, i as int, (k, v), k2);
                    }
                    assert forall|l: int, m: int|
                        0 <= l < m < self.entries@.len() implies (#[trigger] self.entries@[l]).0
                        != (#[trigger] self.entries@[m]).0 by {
                        if l == i {
                            assert(s0[m].0 != k);
                        } else if m == i {
                            assert(s0[l].0 != k);
                        } else {
                            assert(s0[l].0 != s0[m].0);
                        }
                    }
                }
            },
            None => {
                self.entries.push((k, v));
                proof {
                    lemma_lookup_absent(s0, k);
                    lemma_sum_push(s0, (k, v));
                    lemma_lookup_push_self(s0, (k, v));
                    assert forall|k2: AccountId| k2 != k implies lookup(self.entries@, k2)
                        == lookup(s0, k2) by {
                        lemma_lookup_push_other(s0, (k, v), k2);
                    }
                    assert forall|l: int, m: int|
                        0 <= l < m < self.entries@.len() implies (#[trigger] self.entries@[l]).0
                        != (#[trigger] self.entries@[m]).0 by {
                        if m == s0.len() {
                            assert(s0[l].0 != k);
                        } else {
                            assert(s0[l].0 != s0[m].0);
                        }
                    }
                }
            },
        }
    }
}

} // verus!
