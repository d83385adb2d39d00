use vstd::prelude::*;

use crate::account::AccountId;
use crate::account::Balance;

verus! {

/// The recorded allowance for the `(owner, spender)` pair `k`; absent pairs
/// read as zero, and only the first entry for a pair counts.
pub open spec fn pair_lookup(
    s: Seq<((AccountId, AccountId), Balance)>,
    k: (AccountId, AccountId),
) -> Balance
    decreases s.len(),
{
    if s.len() == 0 {
        0
    } else if s[0].0 == k {
        s[0].1
    } else {
        pair_lookup(s.drop_first(), k)
    }
}

/// Every `(owner, spender)` pair occurs at most once.
pub open spec fn pair_unique(s: Seq<((AccountId, AccountId), Balance)>) -> bool {
    forall|i: int, j: int| 0 <= i < j < s.len() ==> (#[trigger] s[i]).0 != (#[trigger] s[j]).0
}

proof fn lemma_pair_lookup_at(
    s: Seq<((AccountId, AccountId), Balance)>,
    k: (AccountId, AccountId),
    i: int,
)
    requires
        0 <= i < s.len(),
        s[i].0 == k,
        forall|j: int| 0 <= j < i ==> (#[trigger] s[j]).0 != k,
    ensures
        pair_lookup(s, k) == s[i].1,
    decreases i,
{
    if i > 0 {
        assert(s[0].0 != k);
        assert(forall|j: int| 0 <= j < i - 1 ==> (#[trigger] s.drop_first()[j]).0 != k);
        lemma_pair_lookup_at(s.drop_first(), k, i - 1);
    }
}

proof fn lemma_pair_lookup_absent(
    s: Seq<((AccountId, AccountId), Balance)>,
    k: (AccountId, AccountId),
)
    requires
        forall|j: int| 0 <= j < s.len() ==> (#[trigger] s[j]).0 != k,
    ensures
        pair_lookup(s, k) == 0,
    decreases s.len(),
{
    if s.len() > 0 {
        assert(forall|j: int| 0 <= j < s.len() - 1 ==> (#[trigger] s.drop_first()[j]).0 != k);
        lemma_pair_lookup_absent(s.drop_first(), k);
    }
}

proof fn lemma_pair_lookup_update_other(
    s: Seq<((AccountId, AccountId), Balance)>,
    i: int,
    x: ((AccountId, AccountId), Balance),
    k2: (AccountId, AccountId),
)
    requires
        0 <= i < s.len(),
        s[i].0 == x.0,
        k2 != x.0,
    ensures
        pair_lookup(s.update(i, x), k2) == pair_lookup(s, k2),
    decreases i,
{
    let t = s.update(i, x);
    if i == 0 {
        assert(t.drop_first() =~= s.drop_first());
    } else {
        assert(t[0] == s[0]);
        if s[0].0 != k2 {
            assert(t.drop_first() =~= s.drop_first().update(i - 1, x));
            lemma_pair_lookup_update_other(s.drop_first(), i - 1, x, k2);
        }
    }
}

proof fn lemma_pair_lookup_push_other(
    s: Seq<((AccountId, AccountId), Balance)>,
    x: ((AccountId, AccountId), Balance),
    k2: (AccountId, AccountId),
)
    requires
        k2 != x.0,
    ensures
        pair_lookup(s.push(x), k2) == pair_lookup(s, k2),
    decreases s.len(),
{
    let t = s.push(x);
    if s.len() == 0 {
        assert(t[0] == x);
        assert(t.drop_first() =~= Seq::<((AccountId, AccountId), Balance)>::empty());
        assert(pair_lookup(t.drop_first(), k2) == 0);
        assert(pair_lookup(s, k2) == 0);
    } else {
        assert(t[0] == s[0]);
        if s[0].0 != k2 {
            assert(t.drop_first() =~= s.drop_first().push(x));
            lemma_pair_lookup_push_other(s.drop_first(), x, k2);
        }
    }
}

proof fn lemma_pair_lookup_push_self(
    s: Seq<((AccountId, AccountId), Balance)>,
    x: ((AccountId, AccountId), Balance),
)
    requires
        forall|j: int| 0 <= j < s.len() ==> (#[trigger] s[j]).0 != x.0,
    ensures
        pair_lookup(s.push(x), x.0) == x.1,
    decreases s.len(),
{
    let t = s.push(x);
    if s.len() == 0 {
        assert(t[0] == x);
    } else {
        assert(t[0] == s[0]);
        assert(s[0].0 != x.0);
        assert(t.drop_first() =~= s.drop_first().push(x));
        assert(forall|j: int| 0 <= j < s.len() - 1 ==> (#[trigger] s.drop_first()[j]).0 != x.0);
        lemma_pair_lookup_push_self(s.drop_first(), x);
    }
}

/// A sparse allowance store keyed by `(owner, spender)` pairs, with at most
/// one entry per pair; absent pairs hold zero.
pub struct AllowanceTable {
    entries: Vec<((AccountId, AccountId), Balance)>,
}

impl View for AllowanceTable {
    type V = Seq<((AccountId, AccountId), Balance)>;

    closed spec fn view(&self) -> Seq<((AccountId, AccountId), Balance)> {
        self.entries@
    }
}

fn find_pair(
    entries: &Vec<((AccountId, AccountId), Balance)>,
    k: (AccountId, AccountId),
) -> (r: Option<usize>)
    ensures
        match r {
            Some(i) => i < entries@.len() && entries@[i as int].0 == k && (forall|j: int|
                0 <= j < i ==> (#[trigger] entries@[j]).0 != k),
            None => forall|j: int| 0 <= j < entries@.len() ==> (#[trigger] entries@[j]).0 != k,
        },
{
    let mut i: usize = 0;
    while i < entries.len()
        invariant
            i <= entries@.len(),
            forall|j: int| 0 <= j < i ==> (#[trigger] entries@[j]).0 != k,
        decreases entries@.len() - i,
    {
        let e = entries[i].0;
        if e.0 == k.0 && e.1 == k.1 {
            return Some(i);
        }
        i = i + 1;
    }
    None
}

impl AllowanceTable {
    pub fn new() -> (t: AllowanceTable)
        ensures
            t@.len() == 0,
    {
        AllowanceTable { entries: Vec::new() }
    }

    pub fn get(&self, k: (AccountId, AccountId)) -> (r: Balance)
        ensures
            r == pair_lookup(self@, k),
    {
        match find_pair(&self.entries, k) {
            Some(i) => {
                proof {
                    lemma_pair_lookup_at(self.entries@, k, i as int);
                }
                self.entries[i].1
            },
            None => {
                proof {
                    lemma_pair_lookup_absent(self.entries@, k);
                }
                0
            },
        }
    }

    /// Record allowance `v` for pair `k`, overwriting any previous entry.
    pub fn set(&mut self, k: (AccountId, AccountId), v: Balance)
        requires
            pair_unique(old(self)@),
        ensures
            pair_unique(final(self)@),
            pair_lookup(final(self)@, k) == v,
            forall|k2: (AccountId, AccountId)| k2 != k ==> pair_lookup(final(self)@, k2)
                == pair_lookup(old(self)@, k2),
    {
        let ghost s0 = self.entries@;
        match find_pair(&self.entries, k) {
            Some(i) => {
                self.entries.set(i, (k, v));
                proof {
                    lemma_pair_lookup_at(self.entries@, k, i as int);
                    assert forall|k2: (AccountId, AccountId)| k2 != k implies pair_lookup(
                        self.entries@,
                        k2,
                    ) == pair_lookup(s0, k2) by {
                        lemma_pair_lookup_update_other(s0, i as int, (k, v), k2);
                    }
                    assert forall|l: int, m: int|
                        0 <= l < m < self.entries@.len() implies (#[trigger] self.entries@[l]).0
                        != (#[trigger] self.entries@[m]).0 by {
                        if l == i {
                            assert(s0[m].0 != k);
                        } else if m == i {
                            assert(s0[l].0 != k);
                        } else {
                            assert(s0[l].0 != s0[m].0);
                        }
                    }
                }
            },
            None => {
                self.entries.push((k, v));
                proof {
                    lemma_pair_lookup_push_self(s0, (k, v));
                    assert forall|k2: (AccountId, AccountId)| k2 != k implies pair_lookup(
                        self.entries@,
                        k2,
                    ) == pair_lookup(s0, k2) by {
                        lemma_pair_lookup_push_other(s0, (k, v), k2);
                    }
                    assert forall|l: int, m: int|
                        0 <= l < m < self.entries@.len() implies (#[trigger] self.entries@[l]).0
                        != (#[trigger] self.entries@[m]).0 by {
                        if m == s0.len() {
                            assert(s0[l].0 != k);
                        } else {
                            assert(s0[l].0 != s0[m].0);
                        }
                    }
                }
            },
        }
    }
}

} // verus!
