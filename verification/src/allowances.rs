//! The allowance store: (owner, spender) -> pre-authorized spending limit.
//!
//! A pair that was never granted an allowance has limit zero, so the store is
//! viewed as a total map from identifier pairs to amounts. Entries are kept
//! in a vector with pairwise-distinct keys.

use vstd::prelude::*;

verus! {

/// The ledger of spending limits one account grants another.
pub struct AllowanceStore {
    entries: Vec<(String, String, u128)>,
}

spec fn key_of(e: (String, String, u128)) -> (Seq<char>, Seq<char>) {
    (e.0@, e.1@)
}

/// The allowance recorded for `k` in `s`, zero when `k` is absent.
spec fn lookup(s: Seq<(String, String, u128)>, k: (Seq<char>, Seq<char>)) -> u128
    decreases s.len(),
{
    if s.len() == 0 {
        0u128
    } else if key_of(s[0]) == k {
        s[0].2
    } else {
        lookup(s.subrange(1, s.len() as int), k)
    }
}

spec fn keys_unique(s: Seq<(String, String, u128)>) -> bool {
    forall|i: int, j: int|
        #![trigger s[i], s[j]]
        0 <= i < j < s.len() ==> key_of(s[i]) != key_of(s[j])
}

/// The map in which no allowance has been granted.
pub open spec fn zero_allowances() -> Map<(Seq<char>, Seq<char>), u128> {
    Map::new(|k: (Seq<char>, Seq<char>)| true, |k: (Seq<char>, Seq<char>)| 0u128)
}

impl View for AllowanceStore {
    type V = Map<(Seq<char>, Seq<char>), u128>;

    closed spec fn view(&self) -> Map<(Seq<char>, Seq<char>), u128> {
        Map::new(
            |k: (Seq<char>, Seq<char>)| true,
            |k: (Seq<char>, Seq<char>)| lookup(self.entries@, k),
        )
    }
}

proof fn lemma_tail_unique(s: Seq<(String, String, u128)>)
    requires
        s.len() > 0,
        keys_unique(s),
    ensures
        keys_unique(s.subrange(1, s.len() as int)),
{
    let t = s.subrange(1, s.len() as int);
    assert forall|i: int, j: int| 0 <= i < j < t.len() implies key_of(t[i]) != key_of(t[j]) by {
        assert(t[i] == s[i + 1]);
        assert(t[j] == s[j + 1]);
    }
}

proof fn lemma_lookup_found(s: Seq<(String, String, u128)>, i: int)
    requires
        keys_unique(s),
        0 <= i < s.len(),
    ensures
        lookup(s, key_of(s[i])) == s[i].2,
    decreases s.len(),
{
    if i > 0 {
        assert(key_of(s[0]) != key_of(s[i]));
        lemma_tail_unique(s);
        let t = s.subrange(1, s.len() as int);
        lemma_lookup_found(t, i - 1);
        assert(t[i - 1] == s[i]);
    }
}

proof fn lemma_lookup_absent(s: Seq<(String, String, u128)>, k: (Seq<char>, Seq<char>))
    requires
        forall|i: int| 0 <= i < s.len() ==> key_of(#[trigger] s[i]) != k,
    ensures
        lookup(s, k) == 0,
    decreases s.len(),
{
    if s.len() > 0 {
        let t = s.subrange(1, s.len() as int);
        assert forall|i: int| 0 <= i < t.len() implies key_of(#[trigger] t[i]) != k by {
            assert(t[i] == s[i + 1]);
        }
        lemma_lookup_absent(t, k);
    }
}

proof fn lemma_lookup_update(s: Seq<(String, String, u128)>, i: int, p: (String, String, u128))
    requires
        keys_unique(s),
        0 <= i < s.len(),
        key_of(p) == key_of(s[i]),
    ensures
        keys_unique(s.update(i, p)),
        forall|k: (Seq<char>, Seq<char>)|
            #[trigger] lookup(s.update(i, p), k) == if k == key_of(p) {
                p.2
            } else {
                lookup(s, k)
            },
    decreases s.len(),
{
    let s2 = s.update(i, p);
    assert forall|a: int, b: int| 0 <= a < b < s2.len() implies key_of(s2[a]) != key_of(s2[b]) by {
        assert(key_of(s2[a]) == key_of(s[a]));
        assert(key_of(s2[b]) == key_of(s[b]));
    }
    if i == 0 {
        assert forall|k: (Seq<char>, Seq<char>)|
            #[trigger] lookup(s2, k) == (if k == key_of(p) {
                p.2
            } else {
                lookup(s, k)
            }) by {
            if k != key_of(p) {
                assert(s2.subrange(1, s2.len() as int) =~= s.subrange(1, s.len() as int));
            }
        }
    } else {
        lemma_tail_unique(s);
        let t = s.subrange(1, s.len() as int);
        lemma_lookup_update(t, i - 1, p);
        assert(t[i - 1] == s[i]);
        assert(s2[0] == s[0]);
        assert(s2.subrange(1, s2.len() as int) =~= t.update(i - 1, p));
        assert forall|k: (Seq<char>, Seq<char>)|
            #[trigger] lookup(s2, k) == (if k == key_of(p) {
                p.2
            } else {
                lookup(s, k)
            }) by {
            assert(lookup(t.update(i - 1, p), k) == if k == key_of(p) {
                p.2
            } else {
                lookup(t, k)
            });
            if k == key_of(s[0]) {
                assert(key_of(s[0]) != key_of(s[i]));
            }
        }
    }
}

proof fn lemma_lookup_push(s: Seq<(String, String, u128)>, p: (String, String, u128))
    requires
        keys_unique(s),
        forall|i: int| 0 <= i < s.len() ==> key_of(#[trigger] s[i]) != key_of(p),
    ensures
        keys_unique(s.push(p)),
        forall|k: (Seq<char>, Seq<char>)|
            #[trigger] lookup(s.push(p), k) == if k == key_of(p) {
                p.2
            } else {
                lookup(s, k)
            },
    decreases s.len(),
{
    let s2 = s.push(p);
    assert forall|a: int, b: int| 0 <= a < b < s2.len() implies key_of(s2[a]) != key_of(s2[b]) by {
        if b == s.len() {
            assert(s2[a] == s[a]);
            assert(s2[b] == p);
        } else {
            assert(s2[a] == s[a]);
            assert(s2[b] == s[b]);
        }
    }
    if s.len() == 0 {
        assert forall|k: (Seq<char>, Seq<char>)|
            #[trigger] lookup(s2, k) == (if k == key_of(p) {
                p.2
            } else {
                lookup(s, k)
            }) by {
            assert(s2[0] == p);
            if k != key_of(p) {
                assert(lookup(s2.subrange(1, 1), k) == 0);
            }
        }
    } else {
        let t = s.subrange(1, s.len() as int);
        lemma_tail_unique(s);
        assert forall|i: int| 0 <= i < t.len() implies key_of(#[trigger] t[i]) != key_of(p) by {
            assert(t[i] == s[i + 1]);
        }
        lemma_lookup_push(t, p);
        assert(s2[0] == s[0]);
        assert(s2.subrange(1, s2.len() as int) =~= t.push(p));
        assert forall|k: (Seq<char>, Seq<char>)|
            #[trigger] lookup(s2, k) == (if k == key_of(p) {
                p.2
            } else {
                lookup(s, k)
            }) by {
            assert(lookup(t.push(p), k) == if k == key_of(p) {
                p.2
            } else {
                lookup(t, k)
            });
            if k == key_of(s[0]) {
                assert(key_of(s[0]) != key_of(p));
            }
        }
    }
}

impl AllowanceStore {
    /// The store's keys are pairwise distinct.
    pub closed spec fn wf(self) -> bool {
        keys_unique(self.entries@)
    }

    /// An empty store: no allowance has been granted.
    pub fn new() -> (r: Self)
        ensures
            r.wf(),
            r@ == zero_allowances(),
    {
        let r = AllowanceStore { entries: Vec::new() };
        proof {
            assert forall|k: (Seq<char>, Seq<char>)| #[trigger]
                lookup(r.entries@, k) == 0u128 by {}
            assert(r@ =~= zero_allowances());
        }
        r
    }

    fn find(&self, owner: &String, spender: &String) -> (r: Option<usize>)
        ensures
            match r {
                Some(i) => i < self.entries@.len() && key_of(self.entries@[i as int]) == (
                owner@,
                spender@,
                ),
                None => forall|j: int|
                    0 <= j < self.entries@.len() ==> key_of(#[trigger] self.entries@[j]) != (
                    owner@,
                    spender@,
                    ),
            },
    {
        let n = self.entries.len();
        let mut i: usize = 0;
        while i < n
            invariant
                n == self.entries@.len(),
                i <= n,
                forall|j: int|
                    0 <= j < i ==> key_of(#[trigger] self.entries@[j]) != (owner@, spender@),
            decreases n - i,
        {
            if owner.eq(&self.entries[i].0) && spender.eq(&self.entries[i].1) {
                return Some(i);
            }
            i = i + 1;
        }
        None
    }

    /// The allowance `owner` has granted `spender`, zero when none exists.
    pub fn allowance_of(&self, owner: &String, spender: &String) -> (r: u128)
        requires
            self.wf(),
        ensures
            r == self@[(owner@, spender@)],
    {
        match self.find(owner, spender) {
            Some(i) => {
                proof {
                    lemma_lookup_found(self.entries@, i as int);
                }
                self.entries[i].2
            }
            None => {
                proof {
                    lemma_lookup_absent(self.entries@, (owner@, spender@));
                }
                0
            }
        }
    }

    /// Raises the allowance of `(owner, spender)` by `amount`.
    pub fn increase(&mut self, owner: &String, spender: &String, amount: u128)
        requires
            old(self).wf(),
            old(self)@[(owner@, spender@)] + amount <= u128::MAX,
        ensures
            final(self).wf(),
            final(self)@ == old(self)@.insert(
                (owner@, spender@),
                (old(self)@[(owner@, spender@)] + amount) as u128,
            ),
    {
        let ghost s0 = self.entries@;
        match self.find(owner, spender) {
            Some(i) => {
                proof {
                    lemma_lookup_found(s0, i as int);
                }
                let v = self.entries[i].2;
                self.entries.set(i, (owner.clone(), spender.clone(), v + amount));
                proof {
                    lemma_lookup_update(s0, i as int, self.entries@[i as int]);
                    assert(self@ =~= old(self)@.insert(
                        (owner@, spender@),
                        (old(self)@[(owner@, spender@)] + amount) as u128,
                    ));
                }
            }
            None => {
                proof {
                    lemma_lookup_absent(s0, (owner@, spender@));
                }
                self.entries.push((owner.clone(), spender.clone(), amount));
                proof {
                    lemma_lookup_push(s0, self.entries@[s0.len() as int]);
                    assert(self@ =~= old(self)@.insert(
                        (owner@, spender@),
                        (old(self)@[(owner@, spender@)] + amount) as u128,
                    ));
                }
            }
        }
    }

    /// Consumes `amount` of the allowance of `(owner, spender)`.
    pub fn deduct(&mut self, owner: &String, spender: &String, amount: u128)
        requires
            old(self).wf(),
            old(self)@[(owner@, spender@)] >= amount,
        ensures
            final(self).wf(),
            final(self)@ == old(self)@.insert(
                (owner@, spender@),
                (old(self)@[(owner@, spender@)] - amount) as u128,
            ),
    {
        let ghost s0 = self.entries@;
        match self.find(owner, spender) {
            Some(i) => {
                proof {
                    lemma_lookup_found(s0, i as int);
                }
                let v = self.entries[i].2;
                self.entries.set(i, (owner.clone(), spender.clone(), v - amount));
                proof {
                    lemma_lookup_update(s0, i as int, self.entries@[i as int]);
                    assert(self@ =~= old(self)@.insert(
                        (owner@, spender@),
                        (old(self)@[(owner@, spender@)] - amount) as u128,
                    ));
                }
            }
            None => {
                proof {
                    lemma_lookup_absent(s0, (owner@, spender@));
                    assert(self@ =~= old(self)@.insert(
                        (owner@, spender@),
                        (old(self)@[(owner@, spender@)] - amount) as u128,
                    ));
                }
            }
        }
    }
}

} // verus!
