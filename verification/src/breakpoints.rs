//! The set of function names at which execution must suspend.
//!
//! Adding a name twice is a no-op and removing an absent name is reported
//! as `false`, never as an error.  The names are kept in strictly
//! increasing lexicographic order, so a listing is deterministic and a
//! membership test — consulted on every function entry — is a binary
//! search, never a scan of the whole registry.

use vstd::prelude::*;
use crate::text_order::TextCmp;
use crate::text_order::lemma_lex_asymmetric;
use crate::text_order::lemma_lex_connected;
use crate::text_order::lemma_lex_transitive;
use crate::text_order::lex_lt;
use crate::text_order::str_compare;
use crate::text_order::strictly_sorted;

verus! {

/// Registry of breakpoint names.
pub struct BreakpointRegistry {
    names: Vec<String>,
}

impl View for BreakpointRegistry {
    type V = Set<Seq<char>>;

    /// The registry viewed as the set of names it holds.
    open spec fn view(&self) -> Set<Seq<char>> {
        self.names_seq().to_set()
    }
}

impl BreakpointRegistry {
    /// The stored names in listing order.
    pub closed spec fn names_seq(&self) -> Seq<Seq<char>> {
        self.names@.map_values(|s: String| s@)
    }

    /// The names are strictly sorted, hence pairwise distinct.
    pub closed spec fn wf(&self) -> bool {
        strictly_sorted(self.names_seq())
    }

    /// An empty registry.
    pub fn new() -> (r: BreakpointRegistry)
        ensures
            r.wf(),
            r@ =~= Set::<Seq<char>>::empty(),
            r.names_seq() =~= Seq::<Seq<char>>::empty(),
    {
        let r = BreakpointRegistry { names: Vec::new() };
        proof {
            assert(r.names_seq() =~= Seq::<Seq<char>>::empty());
        }
        r
    }

    /// The least index whose name is not below `name`; all names before it
    /// are strictly below `name`.
    fn lower_bound(&self, name: &str) -> (idx: usize)
        requires
            self.wf(),
        ensures
            idx <= self.names_seq().len(),
            forall|j: int| 0 <= j < idx ==> lex_lt(#[trigger] self.names_seq()[j], name@),
            forall|j: int|
                idx <= j < self.names_seq().len() ==> !lex_lt(
                    #[trigger] self.names_seq()[j],
                    name@,
                ),
    {
        let ghost s = self.names_seq();
        let mut lo: usize = 0;
        let mut hi: usize = self.names.len();
        while lo < hi
            invariant
                lo <= hi <= s.len(),
                s.len() == self.names@.len(),
                s == self.names_seq(),
                self.wf(),
                forall|j: int| 0 <= j < lo ==> lex_lt(#[trigger] s[j], name@),
                forall|j: int| hi <= j < s.len() ==> !lex_lt(#[trigger] s[j], name@),
            decreases hi - lo,
        {
            let mid = lo + (hi - lo) / 2;
            match str_compare(self.names[mid].as_str(), name) {
                TextCmp::Less => {
                    proof {
                        assert forall|j: int| 0 <= j < mid + 1 implies lex_lt(
                            #[trigger] s[j],
                            name@,
                        ) by {
                            if j < mid {
                                lemma_lex_transitive(s[j], s[mid as int], name@);
                            }
                        }
                    }
                    lo = mid + 1;
                },
                TextCmp::Equal => {
                    proof {
                        lemma_lex_asymmetric(s[mid as int], s[mid as int]);
                        assert forall|j: int| mid <= j < s.len() implies !lex_lt(
                            #[trigger] s[j],
                            name@,
                        ) by {
                            if j > mid && lex_lt(s[j], name@) {
                                lemma_lex_transitive(s[mid as int], s[j], name@);
                            }
                        }
                    }
                    hi = mid;
                },
                TextCmp::Greater => {
                    proof {
                        lemma_lex_asymmetric(name@, s[mid as int]);
                        assert forall|j: int| mid <= j < s.len() implies !lex_lt(
                            #[trigger] s[j],
                            name@,
                        ) by {
                            if j > mid && lex_lt(s[j], name@) {
                                lemma_lex_transitive(s[mid as int], s[j], name@);
                            }
                        }
                    }
                    hi = mid;
                },
            }
        }
        lo
    }

    /// Whether `name` is in the registry.
    pub fn contains(&self, name: &str) -> (r: bool)
        requires
            self.wf(),
        ensures
            r == self@.contains(name@),
    {
        let idx = self.lower_bound(name);
        let found: bool = if idx < self.names.len() {
            match str_compare(self.names[idx].as_str(), name) {
                TextCmp::Equal => true,
                _ => false,
            }
        } else {
            false
        };
        proof {
            let s = self.names_seq();
            if found {
                assert(s[idx as int] == name@);
                assert(s.contains(name@));
            } else {
                assert forall|k: int| 0 <= k < s.len() implies s[k] != name@ by {
                    if k < idx {
                        lemma_lex_asymmetric(s[k], s[k]);
                    } else if k > idx {
                        if s[k] == name@ {
                            assert(lex_lt(s[idx as int], s[k]));
                        }
                    }
                }
                if s.contains(name@) {
                    let k = choose|k: int| 0 <= k < s.len() && s[k] == name@;
                    assert(false);
                }
            }
        }
        found
    }

    /// Inserts `name`; inserting a name already present changes nothing.
    pub fn add(&mut self, name: &str)
        requires
            old(self).wf(),
        ensures
            final(self).wf(),
            final(self)@ =~= old(self)@.insert(name@),
    {
        let idx = self.lower_bound(name);
        let present: bool = if idx < self.names.len() {
            match str_compare(self.names[idx].as_str(), name) {
                TextCmp::Equal => true,
                _ => false,
            }
        } else {
            false
        };
        if present {
            proof {
                let s = self.names_seq();
                assert(s[idx as int] == name@);
                assert(s.contains(name@));
                assert(self@.insert(name@) =~= self@);
            }
            return ;
        }
        let ghost olds = self.names_seq();
        self.names.insert(idx, name.to_owned());
        proof {
            let s = self.names_seq();
            assert(s =~= olds.insert(idx as int, name@));
            if idx < olds.len() {
                if !lex_lt(name@, olds[idx as int]) {
                    lemma_lex_connected(olds[idx as int], name@);
                }
            }
            assert forall|i: int, j: int| 0 <= i < j < s.len() implies lex_lt(s[i], s[j]) by {
                if j < idx {
                    assert(s[i] == olds[i] && s[j] == olds[j]);
                } else if i < idx && j == idx {
                    assert(s[i] == olds[i] && s[j] == name@);
                } else if i < idx && j > idx {
                    assert(s[i] == olds[i] && s[j] == olds[j - 1]);
                } else if i == idx && j > idx {
                    assert(s[i] == name@ && s[j] == olds[j - 1]);
                    if j - 1 > idx {
                        lemma_lex_transitive(name@, olds[idx as int], olds[j - 1]);
                    }
                } else {
                    assert(s[i] == olds[i - 1] && s[j] == olds[j - 1]);
                }
            }
            assert forall|x: Seq<char>| s.to_set().contains(x) implies olds.to_set().insert(
                name@,
            ).contains(x) by {
                let k = choose|k: int| 0 <= k < s.len() && s[k] == x;
                if k < idx {
                    assert(olds[k] == x);
                    assert(olds.contains(x));
                } else if k > idx {
                    assert(olds[k - 1] == x);
                    assert(olds.contains(x));
                }
            }
            assert forall|x: Seq<char>| olds.to_set().insert(name@).contains(x) implies s.to_set()
                .contains(x) by {
                if x == name@ {
                    assert(s[idx as int] == x);
                    assert(s.contains(x));
                } else {
                    let k = choose|k: int| 0 <= k < olds.len() && olds[k] == x;
                    if k < idx {
                        assert(s[k] == x);
                    } else {
                        assert(s[k + 1] == x);
                    }
                    assert(s.contains(x));
                }
            }
            assert(s.to_set() =~= olds.to_set().insert(name@));
        }
    }

    /// Removes `name`, reporting whether it was present; removing an absent
    /// name changes nothing.
    pub fn remove(&mut self, name: &str) -> (r: bool)
        requires
            old(self).wf(),
        ensures
            final(self).wf(),
            r == old(self)@.contains(name@),
            final(self)@ =~= old(self)@.remove(name@),
    {
        let idx = self.lower_bound(name);
        let present: bool = if idx < self.names.len() {
            match str_compare(self.names[idx].as_str(), name) {
                TextCmp::Equal => true,
                _ => false,
            }
        } else {
            false
        };
        if !present {
            proof {
                let s = self.names_seq();
                assert forall|k: int| 0 <= k < s.len() implies s[k] != name@ by {
                    if k < idx {
                        lemma_lex_asymmetric(s[k], s[k]);
                    } else if k > idx {
                        if s[k] == name@ {
                            assert(lex_lt(s[idx as int], s[k]));
                        }
                    }
                }
                if s.contains(name@) {
                    let k = choose|k: int| 0 <= k < s.len() && s[k] == name@;
                    assert(false);
                }
                assert(self@.remove(name@) =~= self@);
            }
            return false;
        }
        let ghost olds = self.names_seq();
        self.names.remove(idx);
        proof {
            let s = self.names_seq();
            assert(s =~= olds.remove(idx as int));
            assert(olds[idx as int] == name@);
            assert forall|i: int, j: int| 0 <= i < j < s.len() implies lex_lt(s[i], s[j]) by {
                if j < idx {
                    assert(s[i] == olds[i] && s[j] == olds[j]);
                } else if i < idx {
                    assert(s[i] == olds[i] && s[j] == olds[j + 1]);
                } else {
                    assert(s[i] == olds[i + 1] && s[j] == olds[j + 1]);
                }
            }
            assert forall|k: int| 0 <= k < olds.len() && k != idx implies olds[k] != name@ by {
                if k < idx {
                    lemma_lex_asymmetric(olds[k], olds[k]);
                } else {
                    lemma_lex_asymmetric(olds[idx as int], olds[k]);
                }
            }
            assert forall|x: Seq<char>| s.to_set().contains(x) implies olds.to_set().remove(
                name@,
            ).contains(x) by {
                let k = choose|k: int| 0 <= k < s.len() && s[k] == x;
                if k < idx {
                    assert(olds[k] == x);
                } else {
                    assert(olds[k + 1] == x);
                }
                assert(olds.contains(x));
            }
            assert forall|x: Seq<char>| olds.to_set().remove(name@).contains(x) implies s.to_set()
                .contains(x) by {
                let k = choose|k: int| 0 <= k < olds.len() && olds[k] == x;
                if k < idx {
                    assert(s[k] == x);
                } else {
                    assert(s[k - 1] == x);
                }
                assert(s.contains(x));
            }
            assert(s.to_set() =~= olds.to_set().remove(name@));
            assert(olds.contains(name@));
        }
        true
    }

    /// The breakpoint names, in strictly increasing lexicographic order.
    pub fn list(&self) -> (r: &Vec<String>)
        requires
            self.wf(),
        ensures
            r@.map_values(|s: String| s@) == self.names_seq(),
            strictly_sorted(self.names_seq()),
            forall|x: Seq<char>| self@.contains(x) <==> self.names_seq().contains(x),
    {
        &self.names
    }
}

} // verus!
