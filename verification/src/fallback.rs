//! The in-process fallback store: a key-value mapping used when the remote
//! tier is disabled or a routed node is unusable. Entries have no expiry;
//! they persist until explicitly deleted or the process exits.
//!
//! The store is modelled as a `Map` from key characters to value
//! characters; the struct keeps an entry list with pairwise-distinct keys.
//! Callers that share a store across workers wrap it in a lock held for the
//! single call, never across a whole dispatch attempt.

use vstd::prelude::*;

use crate::glob::glob_match;
use crate::glob::glob_matches;

verus! {

/// Whether some string in `ks` reads as the characters `s`.
pub open spec fn seq_has_key(ks: Seq<String>, s: Seq<char>) -> bool {
    exists|j: int| 0 <= j < ks.len() && (#[trigger] ks[j])@ == s
}

pub struct FallbackStore {
    entries: Vec<(String, String)>,
}

impl View for FallbackStore {
    type V = Map<Seq<char>, Seq<char>>;

    closed spec fn view(&self) -> Map<Seq<char>, Seq<char>> {
        Map::new(|k: Seq<char>| self.spec_has_key(k), |k: Seq<char>| self.spec_val_of(k))
    }
}

impl FallbackStore {
    spec fn key_at(self, i: int) -> Seq<char> {
        self.entries@[i].0@
    }

    spec fn val_at(self, i: int) -> Seq<char> {
        self.entries@[i].1@
    }

    spec fn spec_has_key(self, k: Seq<char>) -> bool {
        exists|i: int| 0 <= i < self.entries@.len() && self.key_at(i) == k
    }

    spec fn spec_val_of(self, k: Seq<char>) -> Seq<char> {
        self.val_at(choose|i: int| 0 <= i < self.entries@.len() && self.key_at(i) == k)
    }

    spec fn key_from_prefix(self, s: Seq<char>, i: int) -> bool {
        exists|t: int| 0 <= t < i && s == #[trigger] self.key_at(t)
    }

    /// Well-formed: no key stands in the entry list twice.
    pub closed spec fn wf(self) -> bool {
        forall|i: int, j: int|
            0 <= i < j < self.entries@.len() ==> self.key_at(i) != self.key_at(j)
    }

    /// The entry at a given position is what the map holds for its key.
    proof fn lemma_view_at(self, i: int)
        requires
            self.wf(),
            0 <= i < self.entries@.len(),
        ensures
            self@.contains_key(self.key_at(i)),
            self@[self.key_at(i)] == self.val_at(i),
    {
        assert(0 <= i < self.entries@.len() && self.key_at(i) == self.key_at(i));
        let j = choose|j: int|
            0 <= j < self.entries@.len() && self.key_at(j) == self.key_at(i);
        if j < i {
            assert(self.key_at(j) != self.key_at(i));
        } else if i < j {
            assert(self.key_at(i) != self.key_at(j));
        }
    }

    /// An empty store: nothing is in its mapping.
    pub fn new() -> (s: FallbackStore)
        ensures
            s.wf(),
            s@ == Map::<Seq<char>, Seq<char>>::empty(),
    {
        let s = FallbackStore { entries: Vec::new() };
        proof {
            assert(s@ =~= Map::<Seq<char>, Seq<char>>::empty());
        }
        s
    }

    fn find(&self, key: &str) -> (r: Option<usize>)
        ensures
            match r {
                Some(i) => 0 <= i < self.entries@.len() && self.key_at(i as int) == key@,
                None => !self.spec_has_key(key@),
            },
    {
        let k = key.to_owned();
        let n = self.entries.len();
        let mut i: usize = 0;
        while i < n
            invariant
                n == self.entries@.len(),
                i <= n,
                k@ == key@,
                forall|j: int| 0 <= j < i ==> self.key_at(j) != key@,
            decreases n - i,
        {
            if self.entries[i].0 == k {
                return Some(i);
            }
            i = i + 1;
        }
        None
    }

    /// Reads the value for a key: `Some` exactly when the key is in the
    /// mapping, and then the value last written for it.
    pub fn get(&self, key: &str) -> (r: Option<String>)
        requires
            self.wf(),
        ensures
            match r {
                Some(v) => self@.contains_key(key@) && v@ == self@[key@],
                None => !self@.contains_key(key@),
            },
    {
        match self.find(key) {
            Some(i) => {
                proof {
                    self.lemma_view_at(i as int);
                }
                Some(self.entries[i].1.clone())
            },
            None => None,
        }
    }

    /// Removes a key: the answer says whether it existed, and afterwards the
    /// mapping holds everything else unchanged and that key no longer.
    pub fn delete(&mut self, key: &str) -> (existed: bool)
        requires
            old(self).wf(),
        ensures
            final(self).wf(),
            existed == old(self)@.contains_key(key@),
            final(self)@ == old(self)@.remove(key@),
    {
        match self.find(key) {
            None => {
                proof {
                    assert(self@ =~= old(self)@.remove(key@));
                }
                false
            },
            Some(i) => {
                proof {
                    old(self).lemma_view_at(i as int);
                }
                let ghost s0 = self.entries@;
                let ghost ii = i as int;
                self.entries.remove(i);
                proof {
                    s0.remove_ensures(ii);
                    assert forall|a: int, b: int|
                        0 <= a < b < self.entries@.len() implies self.key_at(a)
                        != self.key_at(b) by {
                        let a0: int = if a < ii { a } else { a + 1 };
                        let b0: int = if b < ii { b } else { b + 1 };
                        assert(self.entries@[a] == s0[a0]);
                        assert(self.entries@[b] == s0[b0]);
                        assert(old(self).key_at(a0) != old(self).key_at(b0));
                    }
                    let m1 = self@;
                    let m2 = old(self)@.remove(key@);
                    assert forall|x: Seq<char>| #[trigger] m1.dom().contains(x) implies
                        m2.dom().contains(x) && m1[x] == m2[x] by {
                        if self@.contains_key(x) {
                            let j = choose|j: int|
                                0 <= j < self.entries@.len() && self.key_at(j) == x;
                            let j0: int = if j < ii { j } else { j + 1 };
                            assert(self.entries@[j] == s0[j0]);
                            assert(0 <= j0 < s0.len() && old(self).key_at(j0) == x);
                            if j0 < ii {
                                assert(old(self).key_at(j0) != old(self).key_at(ii));
                            } else {
                                assert(old(self).key_at(ii) != old(self).key_at(j0));
                            }
                            old(self).lemma_view_at(j0);
                            self.lemma_view_at(j);
                        }
                    }
                    assert forall|x: Seq<char>| #[trigger] m2.dom().contains(x) implies
                        m1.dom().contains(x) by {
                        if old(self)@.remove(key@).contains_key(x) {
                            let j0 = choose|j: int|
                                0 <= j < s0.len() && old(self).key_at(j) == x;
                            assert(j0 != ii);
                            let j: int = if j0 < ii { j0 } else { j0 - 1 };
                            assert(self.entries@[j] == s0[j0]);
                            assert(0 <= j < self.entries@.len() && self.key_at(j) == x);
                        }
                    }
                    assert(m1 =~= m2);
                }
                true
            },
        }
    }

    /// Writes a value for a key: afterwards the mapping holds that value for
    /// it and everything else unchanged. An existing value is overwritten.
    pub fn set(&mut self, key: &str, value: &str)
        requires
            old(self).wf(),
        ensures
            final(self).wf(),
            final(self)@ == old(self)@.insert(key@, value@),
    {
        let _existed = self.delete(key);
        let ghost mid = *self;
        self.entries.push((key.to_owned(), value.to_owned()));
        proof {
            let n = self.entries@.len();
            assert(self.entries@ == mid.entries@.push(
                (self.entries@[n - 1].0, self.entries@[n - 1].1),
            ));
            assert(self.key_at(n - 1) == key@);
            assert(self.val_at(n - 1) == value@);
            assert forall|a: int, b: int|
                0 <= a < b < n implies self.key_at(a) != self.key_at(b) by {
                if b < n - 1 {
                    assert(self.entries@[a] == mid.entries@[a]);
                    assert(self.entries@[b] == mid.entries@[b]);
                    assert(mid.key_at(a) != mid.key_at(b));
                } else {
                    assert(self.entries@[a] == mid.entries@[a]);
                    assert(0 <= a < mid.entries@.len() && mid.key_at(a) == mid.key_at(a));
                    assert(mid.spec_has_key(mid.key_at(a)));
                    assert(mid@.contains_key(mid.key_at(a)));
                    assert(!mid@.contains_key(key@));
                }
            }
            let m1 = self@;
            let m2 = old(self)@.insert(key@, value@);
            assert forall|x: Seq<char>| #[trigger] m1.dom().contains(x) implies
                m2.dom().contains(x) && m1[x] == m2[x] by {
                if self@.contains_key(x) {
                    let j = choose|j: int| 0 <= j < n && self.key_at(j) == x;
                    self.lemma_view_at(j);
                    if j == n - 1 {
                        assert(x == key@);
                    } else {
                        assert(self.entries@[j] == mid.entries@[j]);
                        assert(0 <= j < mid.entries@.len() && mid.key_at(j) == x);
                        mid.lemma_view_at(j);
                        assert(mid@.contains_key(x));
                        assert(x != key@);
                    }
                }
            }
            assert forall|x: Seq<char>| #[trigger] m2.dom().contains(x) implies
                m1.dom().contains(x) by {
                if old(self)@.insert(key@, value@).contains_key(x) {
                    if x == key@ {
                        assert(0 <= n - 1 < n && self.key_at(n - 1) == x);
                    } else {
                        assert(mid@.contains_key(x));
                        let j = choose|j: int|
                            0 <= j < mid.entries@.len() && mid.key_at(j) == x;
                        assert(self.entries@[j] == mid.entries@[j]);
                        assert(0 <= j < n && self.key_at(j) == x);
                    }
                }
            }
            assert(m1 =~= m2);
        }
    }

    /// Lists the keys the pattern matches, each once, in some order.
    pub fn keys_matching(&self, pattern: &str) -> (r: Vec<String>)
        requires
            self.wf(),
        ensures
            forall|j: int|
                0 <= j < r@.len() ==> self@.contains_key((#[trigger] r@[j])@) && glob_matches(
                    pattern@,
                    r@[j]@,
                ),
            forall|k: Seq<char>|
                self@.contains_key(k) && glob_matches(pattern@, k) ==> seq_has_key(r@, k),
            forall|j1: int, j2: int| 0 <= j1 < j2 < r@.len() ==> r@[j1]@ != r@[j2]@,
    {
        let n = self.entries.len();
        let mut out: Vec<String> = Vec::new();
        let mut i: usize = 0;
        while i < n
            invariant
                self.wf(),
                n == self.entries@.len(),
                i <= n,
                forall|j: int|
                    0 <= j < out@.len() ==> self.key_from_prefix((#[trigger] out@[j])@, i as int),
                forall|j: int|
                    0 <= j < out@.len() ==> glob_matches(pattern@, (#[trigger] out@[j])@),
                forall|t: int|
                    0 <= t < i && glob_matches(pattern@, #[trigger] self.key_at(t))
                        ==> seq_has_key(out@, self.key_at(t)),
                forall|j1: int, j2: int| 0 <= j1 < j2 < out@.len() ==> out@[j1]@ != out@[j2]@,
            decreases n - i,
        {
            let ghost out0 = out@;
            if glob_match(pattern, self.entries[i].0.as_str()) {
                out.push(self.entries[i].0.clone());
                proof {
                    let last = out@.len() - 1;
                    assert(out@[last]@ == self.key_at(i as int));
                    assert forall|j1: int, j2: int|
                        0 <= j1 < j2 < out@.len() implies out@[j1]@ != out@[j2]@ by {
                        if j2 == last {
                            let t = choose|t: int|
                                0 <= t < i && out0[j1]@ == self.key_at(t);
                            assert(out@[j1] == out0[j1]);
                            assert(self.key_at(t) != self.key_at(i as int));
                        } else {
                            assert(out@[j1] == out0[j1]);
                            assert(out@[j2] == out0[j2]);
                        }
                    }
                    assert forall|j: int| 0 <= j < out@.len() implies self.key_from_prefix(
                        (#[trigger] out@[j])@,
                        i as int + 1,
                    ) by {
                        if j == last {
                            assert(out@[j]@ == self.key_at(i as int));
                        } else {
                            assert(out@[j] == out0[j]);
                            let t = choose|t: int| 0 <= t < i && out0[j]@ == self.key_at(t);
                            assert(0 <= t < i as int + 1 && out@[j]@ == self.key_at(t));
                        }
                    }
                    assert forall|t: int|
                        0 <= t < i as int + 1 && glob_matches(
                            pattern@,
                            #[trigger] self.key_at(t),
                        ) implies seq_has_key(out@, self.key_at(t)) by {
                        if t == i as int {
                            assert(0 <= last < out@.len() && out@[last]@ == self.key_at(t));
                        } else {
                            let j = choose|j: int|
                                0 <= j < out0.len() && (#[trigger] out0[j])@ == self.key_at(t);
                            assert(out@[j] == out0[j]);
                            assert(0 <= j < out@.len() && out@[j]@ == self.key_at(t));
                        }
                    }
                }
            } else {
                proof {
                    assert(!glob_matches(pattern@, self.key_at(i as int)));
                    assert forall|j: int| 0 <= j < out@.len() implies self.key_from_prefix(
                        (#[trigger] out@[j])@,
                        i as int + 1,
                    ) by {
                        let t = choose|t: int| 0 <= t < i && out@[j]@ == self.key_at(t);
                        assert(0 <= t < i as int + 1 && out@[j]@ == self.key_at(t));
                    }
                }
            }
            i = i + 1;
        }
        proof {
            assert forall|k: Seq<char>|
                self@.contains_key(k) && glob_matches(pattern@, k) implies seq_has_key(
                out@,
                k,
            ) by {
                let t = choose|t: int|
                    0 <= t < self.entries@.len() && self.key_at(t) == k;
                assert(glob_matches(pattern@, self.key_at(t)));
            }
            assert forall|j: int| 0 <= j < out@.len() implies self@.contains_key(
                (#[trigger] out@[j])@,
            ) && glob_matches(pattern@, out@[j]@) by {
                let t = choose|t: int| 0 <= t < n && out@[j]@ == self.key_at(t);
                self.lemma_view_at(t);
            }
        }
        out
    }
}

/// Law: a value written for a key is what a read of that key returns, and
/// it stays readable, unchanged, across writes and deletes of other keys,
/// until the key itself is overwritten or deleted.
pub proof fn lemma_store_round_trip(
    m: Map<Seq<char>, Seq<char>>,
    k: Seq<char>,
    v: Seq<char>,
    k2: Seq<char>,
    v2: Seq<char>,
)
    ensures
        m.insert(k, v).contains_key(k),
        m.insert(k, v)[k] == v,
        k2 != k ==> m.insert(k, v).insert(k2, v2).contains_key(k) && m.insert(k, v).insert(
            k2,
            v2,
        )[k] == v,
        k2 != k ==> m.insert(k, v).remove(k2).contains_key(k) && m.insert(k, v).remove(k2)[k]
            == v,
{
}

/// Law: deleting a key right after writing it reports it deleted, a read
/// after that finds nothing, and a repeated delete has no further effect —
/// the effect is idempotent though the reported answer is not.
pub proof fn lemma_delete_semantics(m: Map<Seq<char>, Seq<char>>, k: Seq<char>, v: Seq<char>)
    ensures
        m.insert(k, v).contains_key(k),
        !m.insert(k, v).remove(k).contains_key(k),
        m.insert(k, v).remove(k) =~= m.remove(k),
        m.remove(k).remove(k) =~= m.remove(k),
{
}

} // verus!
