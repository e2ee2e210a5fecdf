//! A read-only snapshot of the contract's persistent storage, for display.
//!
//! The inspector holds a point-in-time copy of the key/value entries,
//! refreshed on demand from the host between pauses; it never mutates the
//! contract's storage.  Entries are kept sorted by key, so a full listing
//! is already in display order and a lookup is a binary search.

use vstd::prelude::*;
use crate::text_order::TextCmp;
use crate::text_order::lemma_lex_asymmetric;
use crate::text_order::lemma_lex_connected;
use crate::text_order::lemma_lex_transitive;
use crate::text_order::lex_lt;
use crate::text_order::str_compare;
use crate::text_order::strictly_sorted;

verus! {

/// One storage entry: a key and its value rendered as display strings.
pub struct StorageEntry {
    pub key: String,
    pub value: String,
}

/// Snapshot of the contract's persistent storage.
pub struct StorageInspector {
    entries: Vec<StorageEntry>,
}

/// The position of `k` among the keys of `s`, when it occurs.
pub open spec fn key_index(s: Seq<(Seq<char>, Seq<char>)>, k: Seq<char>) -> int {
    choose|i: int| 0 <= i < s.len() && s[i].0 == k
}

impl View for StorageInspector {
    type V = Map<Seq<char>, Seq<char>>;

    /// The snapshot viewed as a mapping from key to value.
    open spec fn view(&self) -> Map<Seq<char>, Seq<char>> {
        Map::new(
            |k: Seq<char>| exists|i: int| 0 <= i < self.entries_seq().len() && (#[trigger] self.entries_seq()[i]).0 == k,
            |k: Seq<char>| self.entries_seq()[key_index(self.entries_seq(), k)].1,
        )
    }
}

impl StorageInspector {
    /// The entries in listing order, as pairs of views.
    pub closed spec fn entries_seq(&self) -> Seq<(Seq<char>, Seq<char>)> {
        self.entries@.map_values(|e: StorageEntry| (e.key@, e.value@))
    }

    /// The keys in listing order.
    pub open spec fn keys_seq(&self) -> Seq<Seq<char>> {
        self.entries_seq().map_values(|p: (Seq<char>, Seq<char>)| p.0)
    }

    /// The keys are strictly sorted, hence pairwise distinct.
    pub open spec fn wf(&self) -> bool {
        strictly_sorted(self.keys_seq())
    }

    /// An empty snapshot.
    pub fn new() -> (r: StorageInspector)
        ensures
            r.wf(),
            r@ =~= Map::<Seq<char>, Seq<char>>::empty(),
            r.entries_seq() =~= Seq::<(Seq<char>, Seq<char>)>::empty(),
    {
        let r = StorageInspector { entries: Vec::new() };
        proof {
            assert(r.entries_seq() =~= Seq::<(Seq<char>, Seq<char>)>::empty());
            assert(r@ =~= Map::<Seq<char>, Seq<char>>::empty());
        }
        r
    }

    /// The least index whose key is not below `key`.
    fn lower_bound(&self, key: &str) -> (idx: usize)
        requires
            self.wf(),
        ensures
            idx <= self.entries_seq().len(),
            forall|j: int| 0 <= j < idx ==> lex_lt(#[trigger] self.keys_seq()[j], key@),
            forall|j: int|
                idx <= j < self.entries_seq().len() ==> !lex_lt(#[trigger] self.keys_seq()[j], key@),
    {
        let ghost s = self.keys_seq();
        let mut lo: usize = 0;
        let mut hi: usize = self.entries.len();
        while lo < hi
            invariant
                lo <= hi <= s.len(),
                s.len() == self.entries@.len(),
                s == self.keys_seq(),
                self.wf(),
                forall|j: int| 0 <= j < lo ==> lex_lt(#[trigger] s[j], key@),
                forall|j: int| hi <= j < s.len() ==> !lex_lt(#[trigger] s[j], key@),
            decreases hi - lo,
        {
            let mid = lo + (hi - lo) / 2;
            match str_compare(self.entries[mid].key.as_str(), key) {
                TextCmp::Less => {
                    proof {
                        assert forall|j: int| 0 <= j < mid + 1 implies lex_lt(
                            #[trigger] s[j],
                            key@,
                        ) by {
                            if j < mid {
                                lemma_lex_transitive(s[j], s[mid as int], key@);
                            }
                        }
                    }
                    lo = mid + 1;
                },
                TextCmp::Equal => {
                    proof {
                        lemma_lex_asymmetric(s[mid as int], s[mid as int]);
                        assert forall|j: int| mid <= j < s.len() implies !lex_lt(
                            #[trigger] s[j],
                            key@,
                        ) by {
                            if j > mid && lex_lt(s[j], key@) {
                                lemma_lex_transitive(s[mid as int], s[j], key@);
                            }
                        }
                    }
                    hi = mid;
                },
                TextCmp::Greater => {
                    proof {
                        lemma_lex_asymmetric(key@, s[mid as int]);
                        assert forall|j: int| mid <= j < s.len() implies !lex_lt(
                            #[trigger] s[j],
                            key@,
                        ) by {
                            if j > mid && lex_lt(s[j], key@) {
                                lemma_lex_transitive(s[mid as int], s[j], key@);
                            }
                        }
                    }
                    hi = mid;
                },
            }
        }
        lo
    }

    /// Every key occurs at one position at most.
    proof fn lemma_key_unique(&self, i: int, j: int)
        requires
            self.wf(),
            0 <= i < self.entries_seq().len(),
            0 <= j < self.entries_seq().len(),
            self.entries_seq()[i].0 == self.entries_seq()[j].0,
        ensures
            i == j,
    {
        if i < j {
            assert(lex_lt(self.keys_seq()[i], self.keys_seq()[j]));
            lemma_lex_asymmetric(self.keys_seq()[i], self.keys_seq()[i]);
        }
        if j < i {
            assert(lex_lt(self.keys_seq()[j], self.keys_seq()[i]));
            lemma_lex_asymmetric(self.keys_seq()[j], self.keys_seq()[j]);
        }
    }

    /// The value stored under `key`, if any.
    pub fn get(&self, key: &str) -> (r: Option<&String>)
        requires
            self.wf(),
        ensures
            r is Some <==> self@.contains_key(key@),
            r matches Some(v) ==> self@.contains_key(key@) && v@ == self@[key@],
    {
        let idx = self.lower_bound(key);
        let found: bool = if idx < self.entries.len() {
            match str_compare(self.entries[idx].key.as_str(), key) {
                TextCmp::Equal => true,
                _ => false,
            }
        } else {
            false
        };
        proof {
            let s = self.entries_seq();
            if found {
                assert(s[idx as int].0 == key@);
                let w = key_index(s, key@);
                self.lemma_key_unique(idx as int, w);
            } else {
                assert forall|k: int| 0 <= k < s.len() implies s[k].0 != key@ by {
                    if k < idx {
                        lemma_lex_asymmetric(self.keys_seq()[k], self.keys_seq()[k]);
                    } else if k > idx {
                        if s[k].0 == key@ {
                            assert(lex_lt(self.keys_seq()[idx as int], self.keys_seq()[k]));
                        }
                    }
                }
            }
        }
        if found {
            Some(&self.entries[idx].value)
        } else {
            None
        }
    }

    /// Records `value` under `key` in the snapshot, replacing any earlier
    /// value for the same key.
    pub fn record(&mut self, key: &str, value: &str)
        requires
            old(self).wf(),
        ensures
            final(self).wf(),
            final(self)@ =~= old(self)@.insert(key@, value@),
    {
        let idx = self.lower_bound(key);
        let present: bool = if idx < self.entries.len() {
            match str_compare(self.entries[idx].key.as_str(), key) {
                TextCmp::Equal => true,
                _ => false,
            }
        } else {
            false
        };
        let ghost olds = self.entries_seq();
        if present {
            self.entries[idx] = StorageEntry { key: key.to_owned(), value: value.to_owned() };
            proof {
                let s = self.entries_seq();
                assert(s =~= olds.update(idx as int, (key@, value@)));
                assert(self.keys_seq() =~= old(self).keys_seq());
                assert(olds[idx as int].0 == key@);
                assert forall|k: Seq<char>|
                    #![auto]
                    self@.contains_key(k) == old(self)@.insert(key@, value@).contains_key(k) by {
                        if k == key@ {
                            assert(s[idx as int].0 == k);
                        } else {
                            if self@.contains_key(k) {
                                let i = choose|i: int|
                                    0 <= i < s.len() && (#[trigger] s[i]).0 == k;
                                assert(olds[i].0 == k);
                            }
                            if old(self)@.contains_key(k) {
                                let i = choose|i: int|
                                    0 <= i < olds.len() && (#[trigger] olds[i]).0 == k;
                                assert(s[i].0 == k);
                            }
                        }
                    }
                assert forall|k: Seq<char>| #![auto] self@.contains_key(k) implies self@[k] == old(
                    self,
                )@.insert(key@, value@)[k] by {
                    let w = key_index(s, k);
                    assert(0 <= w < s.len() && s[w].0 == k);
                    if k == key@ {
                        self.lemma_key_unique(w, idx as int);
                    } else {
                        let w0 = key_index(olds, k);
                        assert(olds[w0].0 == k) by {
                            assert(olds[w].0 == k);
                        }
                        old(self).lemma_key_unique(w, w0);
                    }
                }
                assert(final(self)@ =~= old(self)@.insert(key@, value@));
            }
            return ;
        }
        self.entries.insert(idx, StorageEntry { key: key.to_owned(), value: value.to_owned() });
        proof {
            let s = self.entries_seq();
            let ks = self.keys_seq();
            let oldks = old(self).keys_seq();
            assert(s =~= olds.insert(idx as int, (key@, value@)));
            assert(ks =~= oldks.insert(idx as int, key@));
            if idx < olds.len() {
                if !lex_lt(key@, oldks[idx as int]) {
                    lemma_lex_connected(oldks[idx as int], key@);
                }
            }
            assert forall|i: int, j: int| 0 <= i < j < ks.len() implies lex_lt(ks[i], ks[j]) by {
                if j < idx {
                    assert(ks[i] == oldks[i] && ks[j] == oldks[j]);
                } else if i < idx && j == idx {
                    assert(ks[i] == oldks[i] && ks[j] == key@);
                } else if i < idx && j > idx {
                    assert(ks[i] == oldks[i] && ks[j] == oldks[j - 1]);
                } else if i == idx && j > idx {
                    assert(ks[i] == key@ && ks[j] == oldks[j - 1]);
                    if j - 1 > idx {
                        lemma_lex_transitive(key@, oldks[idx as int], oldks[j - 1]);
                    }
                } else {
                    assert(ks[i] == oldks[i - 1] && ks[j] == oldks[j - 1]);
                }
            }
            assert forall|k: Seq<char>|
                #![auto]
                self@.contains_key(k) == old(self)@.insert(key@, value@).contains_key(k) by {
                    if k == key@ {
                        assert(s[idx as int].0 == k);
                    } else {
                        if exists|i: int| 0 <= i < s.len() && (#[trigger] s[i]).0 == k {
                            let i = choose|i: int| 0 <= i < s.len() && (#[trigger] s[i]).0 == k;
                            if i < idx {
                                assert(olds[i].0 == k);
                            } else {
                                assert(olds[i - 1].0 == k);
                            }
                        }
                        if exists|i: int| 0 <= i < olds.len() && (#[trigger] olds[i]).0 == k {
                            let i = choose|i: int|
                                0 <= i < olds.len() && (#[trigger] olds[i]).0 == k;
                            if i < idx {
                                assert(s[i].0 == k);
                            } else {
                                assert(s[i + 1].0 == k);
                            }
                        }
                    }
                }
            assert forall|k: Seq<char>| #![auto] self@.contains_key(k) implies self@[k] == old(
                self,
            )@.insert(key@, value@)[k] by {
                let w = key_index(s, k);
                assert(0 <= w < s.len() && s[w].0 == k);
                if k == key@ {
                    assert(s[idx as int].0 == k);
                    self.lemma_key_unique(w, idx as int);
                } else {
                    let w0 = key_index(olds, k);
                    if w < idx {
                        assert(olds[w].0 == k);
                        assert(olds[w0].0 == k) by {
                            assert(olds[w].0 == k);
                        }
                        old(self).lemma_key_unique(w0, w);
                        if w0 < idx {
                            assert(s[w0].0 == k);
                        }
                    } else {
                        assert(olds[w - 1].0 == k);
                        assert(olds[w0].0 == k) by {
                            assert(olds[w - 1].0 == k);
                        }
                        old(self).lemma_key_unique(w0, w - 1);
                    }
                }
            }
            assert(final(self)@ =~= old(self)@.insert(key@, value@));
        }
    }

    /// Discards the snapshot, e.g. before refreshing it from the host.
    pub fn clear(&mut self)
        ensures
            final(self).wf(),
            final(self)@ =~= Map::<Seq<char>, Seq<char>>::empty(),
    {
        self.entries = Vec::new();
        proof {
            assert(self.entries_seq() =~= Seq::<(Seq<char>, Seq<char>)>::empty());
            assert(self@ =~= Map::<Seq<char>, Seq<char>>::empty());
        }
    }

    /// All entries, sorted by key — the full mapping in display order.
    pub fn get_all(&self) -> (r: &Vec<StorageEntry>)
        requires
            self.wf(),
        ensures
            r@.map_values(|e: StorageEntry| (e.key@, e.value@)) == self.entries_seq(),
            strictly_sorted(self.keys_seq()),
            forall|i: int|
                0 <= i < self.entries_seq().len() ==> self@.contains_key(
                    (#[trigger] self.entries_seq()[i]).0,
                ) && self@[self.entries_seq()[i].0] == self.entries_seq()[i].1,
    {
        proof {
            assert forall|i: int| 0 <= i < self.entries_seq().len() implies self@.contains_key(
                (#[trigger] self.entries_seq()[i]).0,
            ) && self@[self.entries_seq()[i].0] == self.entries_seq()[i].1 by {
                let s = self.entries_seq();
                assert(s[i].0 == s[i].0);
                let w = key_index(s, s[i].0);
                assert(0 <= w < s.len() && s[w].0 == s[i].0) by {
                    assert(s[i].0 == s[i].0);
                }
                self.lemma_key_unique(w, i);
            }
        }
        &self.entries
    }

    /// The number of entries in the snapshot.
    pub fn len(&self) -> (r: usize)
        ensures
            r == self.entries_seq().len(),
    {
        self.entries.len()
    }
}

} // verus!
