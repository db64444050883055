//! The balance store: account identifier -> balance.
//!
//! An account that was never credited has balance zero, so the store is
//! viewed as a total map from identifiers to amounts. Entries are kept in a
//! vector with pairwise-distinct keys.

use vstd::prelude::*;

verus! {

/// The key-value ledger holding one balance per account.
pub struct BalanceStore {
    entries: Vec<(String, u128)>,
}

/// The balance recorded for `k` in `s`, zero when `k` is absent.
spec fn lookup(s: Seq<(String, u128)>, k: Seq<char>) -> u128
    decreases s.len(),
{
    if s.len() == 0 {
        0u128
    } else if s[0].0@ == k {
        s[0].1
    } else {
        lookup(s.subrange(1, s.len() as int), k)
    }
}

spec fn keys_unique(s: Seq<(String, u128)>) -> bool {
    forall|i: int, j: int|
        #![trigger s[i], s[j]]
        0 <= i < j < s.len() ==> s[i].0@ != s[j].0@
}

/// The map in which every account has balance zero.
pub open spec fn zero_balances() -> Map<Seq<char>, u128> {
    Map::new(|k: Seq<char>| true, |k: Seq<char>| 0u128)
}

impl View for BalanceStore {
    type V = Map<Seq<char>, u128>;

    closed spec fn view(&self) -> Map<Seq<char>, u128> {
        Map::new(|k: Seq<char>| true, |k: Seq<char>| lookup(self.entries@, k))
    }
}

proof fn lemma_tail_unique(s: Seq<(String, u128)>)
    requires
        s.len() > 0,
        keys_unique(s),
    ensures
        keys_unique(s.subrange(1, s.len() as int)),
{
    let t = s.subrange(1, s.len() as int);
    assert forall|i: int, j: int| 0 <= i < j < t.len() implies t[i].0@ != t[j].0@ by {
        assert(t[i] == s[i + 1]);
        assert(t[j] == s[j + 1]);
    }
}

proof fn lemma_lookup_found(s: Seq<(String, u128)>, i: int)
    requires
        keys_unique(s),
        0 <= i < s.len(),
    ensures
        lookup(s, s[i].0@) == s[i].1,
    decreases s.len(),
{
    if i > 0 {
        assert(s[0].0@ != s[i].0@);
        lemma_tail_unique(s);
        let t = s.subrange(1, s.len() as int);
        lemma_lookup_found(t, i - 1);
        assert(t[i - 1] == s[i]);
    }
}

proof fn lemma_lookup_absent(s: Seq<(String, u128)>, k: Seq<char>)
    requires
        forall|i: int| 0 <= i < s.len() ==> (#[trigger] s[i]).0@ != k,
    ensures
        lookup(s, k) == 0,
    decreases s.len(),
{
    if s.len() > 0 {
        let t = s.subrange(1, s.len() as int);
        assert forall|i: int| 0 <= i < t.len() implies (#[trigger] t[i]).0@ != k by {
            assert(t[i] == s[i + 1]);
        }
        lemma_lookup_absent(t, k);
    }
}

proof fn lemma_lookup_update(s: Seq<(String, u128)>, i: int, p: (String, u128))
    requires
        keys_unique(s),
        0 <= i < s.len(),
        p.0@ == s[i].0@,
    ensures
        keys_unique(s.update(i, p)),
        forall|k: Seq<char>|
            #[trigger] lookup(s.update(i, p), k) == if k == p.0@ {
                p.1
            } else {
                lookup(s, k)
            },
    decreases s.len(),
{
    let s2 = s.update(i, p);
    assert forall|a: int, b: int| 0 <= a < b < s2.len() implies s2[a].0@ != s2[b].0@ by {
        assert(s2[a].0@ == s[a].0@);
        assert(s2[b].0@ == s[b].0@);
    }
    if i == 0 {
        assert forall|k: Seq<char>|
            #[trigger] lookup(s2, k) == (if k == p.0@ {
                p.1
            } else {
                lookup(s, k)
            }) by {
            if k != p.0@ {
                assert(s2.subrange(1, s2.len() as int) =~= s.subrange(1, s.len() as int));
            }
        }
    } else {
        lemma_tail_unique(s);
        let t = s.subrange(1, s.len() as int);
        lemma_lookup_update(t, i - 1, p);
        assert(t[i - 1] == s[i]);
        assert(s2[0] == s[0]);
        assert(s2.subrange(1, s2.len() as int) =~= t.update(i - 1, p));
        assert forall|k: Seq<char>|
            #[trigger] lookup(s2, k) == (if k == p.0@ {
                p.1
            } else {
                lookup(s, k)
            }) by {
            assert(lookup(t.update(i - 1, p), k) == if k == p.0@ {
                p.1
            } else {
                lookup(t, k)
            });
            if k == s[0].0@ {
                assert(s[0].0@ != s[i].0@);
            }
        }
    }
}

proof fn lemma_lookup_push(s: Seq<(String, u128)>, p: (String, u128))
    requires
        keys_unique(s),
        forall|i: int| 0 <= i < s.len() ==> (#[trigger] s[i]).0@ != p.0@,
    ensures
        keys_unique(s.push(p)),
        forall|k: Seq<char>|
            #[trigger] lookup(s.push(p), k) == if k == p.0@ {
                p.1
            } else {
                lookup(s, k)
            },
    decreases s.len(),
{
    let s2 = s.push(p);
    assert forall|a: int, b: int| 0 <= a < b < s2.len() implies s2[a].0@ != s2[b].0@ by {
        if b == s.len() {
            assert(s2[a] == s[a]);
            assert(s2[b] == p);
        } else {
            assert(s2[a] == s[a]);
            assert(s2[b] == s[b]);
        }
    }
    if s.len() == 0 {
        assert forall|k: Seq<char>|
            #[trigger] lookup(s2, k) == (if k == p.0@ {
                p.1
            } else {
                lookup(s, k)
            }) by {
            assert(s2[0] == p);
            if k != p.0@ {
                assert(lookup(s2.subrange(1, 1), k) == 0);
            }
        }
    } else {
        let t = s.subrange(1, s.len() as int);
        lemma_tail_unique(s);
        assert forall|i: int| 0 <= i < t.len() implies (#[trigger] t[i]).0@ != p.0@ by {
            assert(t[i] == s[i + 1]);
        }
        lemma_lookup_push(t, p);
        assert(s2[0] == s[0]);
        assert(s2.subrange(1, s2.len() as int) =~= t.push(p));
        assert forall|k: Seq<char>|
            #[trigger] lookup(s2, k) == (if k == p.0@ {
                p.1
            } else {
                lookup(s, k)
            }) by {
            assert(lookup(t.push(p), k) == if k == p.0@ {
                p.1
            } else {
                lookup(t, k)
            });
            if k == s[0].0@ {
                assert(s[0].0@ != p.0@);
            }
        }
    }
}

impl BalanceStore {
    /// The store's keys are pairwise distinct.
    pub closed spec fn wf(self) -> bool {
        keys_unique(self.entries@)
    }

    /// An empty ledger: every account has balance zero.
    pub fn new() -> (r: Self)
        ensures
            r.wf(),
            r@ == zero_balances(),
    {
        let r = BalanceStore { entries: Vec::new() };
        proof {
            assert forall|k: Seq<char>| #[trigger] lookup(r.entries@, k) == 0u128 by {}
            assert(r@ =~= zero_balances());
        }
        r
    }

    fn find(&self, addr: &String) -> (r: Option<usize>)
        ensures
            match r {
                Some(i) => i < self.entries@.len() && self.entries@[i as int].0@ == addr@,
                None => forall|j: int|
                    0 <= j < self.entries@.len() ==> (#[trigger] self.entries@[j]).0@ != addr@,
            },
    {
        let n = self.entries.len();
        let mut i: usize = 0;
        while i < n
            invariant
                n == self.entries@.len(),
                i <= n,
                forall|j: int| 0 <= j < i ==> (#[trigger] self.entries@[j]).0@ != addr@,
            decreases n - i,
        {
            if addr.eq(&self.entries[i].0) {
                return Some(i);
            }
            i = i + 1;
        }
        None
    }

    /// The balance of `addr`, zero when no entry exists.
    pub fn balance_of(&self, addr: &String) -> (r: u128)
        requires
            self.wf(),
        ensures
            r == self@[addr@],
    {
        match self.find(addr) {
            Some(i) => {
                proof {
                    lemma_lookup_found(self.entries@, i as int);
                }
                self.entries[i].1
            }
            None => {
                proof {
                    lemma_lookup_absent(self.entries@, addr@);
                }
                0
            }
        }
    }

    /// Adds `amount` to the balance of `addr`.
    pub fn credit(&mut self, addr: &String, amount: u128)
        requires
            old(self).wf(),
            old(self)@[addr@] + amount <= u128::MAX,
        ensures
            final(self).wf(),
            final(self)@ == old(self)@.insert(addr@, (old(self)@[addr@] + amount) as u128),
    {
        let ghost s0 = self.entries@;
        match self.find(addr) {
            Some(i) => {
                proof {
                    lemma_lookup_found(s0, i as int);
                }
                let v = self.entries[i].1;
                self.entries.set(i, (addr.clone(), v + amount));
                proof {
                    lemma_lookup_update(s0, i as int, self.entries@[i as int]);
                    assert(self@ =~= old(self)@.insert(
                        addr@,
                        (old(self)@[addr@] + amount) as u128,
                    ));
                }
            }
            None => {
                proof {
                    lemma_lookup_absent(s0, addr@);
                }
                self.entries.push((addr.clone(), amount));
                proof {
                    lemma_lookup_push(s0, self.entries@[s0.len() as int]);
                    assert(self@ =~= old(self)@.insert(
                        addr@,
                        (old(self)@[addr@] + amount) as u128,
                    ));
                }
            }
        }
    }

    /// Removes `amount` from the balance of `addr`.
    pub fn debit(&mut self, addr: &String, amount: u128)
        requires
            old(self).wf(),
            old(self)@[addr@] >= amount,
        ensures
            final(self).wf(),
            final(self)@ == old(self)@.insert(addr@, (old(self)@[addr@] - amount) as u128),
    {
        let ghost s0 = self.entries@;
        match self.find(addr) {
            Some(i) => {
                proof {
                    lemma_lookup_found(s0, i as int);
                }
                let v = self.entries[i].1;
                self.entries.set(i, (addr.clone(), v - amount));
                proof {
                    lemma_lookup_update(s0, i as int, self.entries@[i as int]);
                    assert(self@ =~= old(self)@.insert(
                        addr@,
                        (old(self)@[addr@] - amount) as u128,
                    ));
                }
            }
            None => {
                proof {
                    lemma_lookup_absent(s0, addr@);
                    assert(self@ =~= old(self)@.insert(
                        addr@,
                        (old(self)@[addr@] - amount) as u128,
                    ));
                }
            }
        }
    }
}

} // verus!
