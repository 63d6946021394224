//! A finite set of canonical codes.
//!
//! The capture path keeps two of them: the keys that are remapped and the
//! keys that are down.

use vstd::prelude::*;
use crate::keys::OsCode;

verus! {

/// A finite set of canonical codes, held as a list in which no code occurs
/// twice.
pub struct KeySet {
    codes: Vec<OsCode>,
}

impl View for KeySet {
    type V = Set<OsCode>;

    closed spec fn view(&self) -> Set<OsCode> {
        self.codes@.to_set()
    }
}

impl KeySet {
    #[verifier::type_invariant]
    spec fn no_code_twice(self) -> bool {
        self.codes@.no_duplicates()
    }

    /// The place of `code` in the list, if it is there.
    fn position(&self, code: OsCode) -> (found: Option<usize>)
        ensures
            found matches Some(i) ==> i < self.codes@.len() && self.codes@[i as int] == code,
            found is None ==> !self.codes@.contains(code),
    {
        let mut i: usize = 0;
        while i < self.codes.len()
            invariant
                i <= self.codes@.len(),
                forall|j: int| 0 <= j < i ==> self.codes@[j] != code,
            decreases self.codes@.len() - i,
        {
            if self.codes[i] == code {
                return Some(i);
            }
            i += 1;
        }
        None
    }

    /// The empty set.
    pub fn new() -> (set: Self)
        ensures
            set@ == Set::<OsCode>::empty(),
    {
        let set = KeySet { codes: Vec::new() };
        assert(set.codes@.to_set() =~= Set::<OsCode>::empty());
        set
    }

    /// The set of the codes that occur in `codes`.
    pub fn from_codes(codes: &Vec<OsCode>) -> (set: Self)
        ensures
            set@ == codes@.to_set(),
    {
        let mut set = KeySet::new();
        let mut i: usize = 0;
        while i < codes.len()
            invariant
                i <= codes@.len(),
                set@ == codes@.take(i as int).to_set(),
            decreases codes@.len() - i,
        {
            set.insert(codes[i]);
            proof {
                let before = codes@.take(i as int);
                assert(codes@.take(i + 1) =~= before.push(codes@[i as int]));
                before.lemma_push_to_set_commute(codes@[i as int]);
            }
            i += 1;
        }
        assert(codes@.take(i as int) =~= codes@);
        set
    }

    /// Whether `code` is in the set.
    pub fn contains(&self, code: OsCode) -> (present: bool)
        ensures
            present == self@.contains(code),
    {
        let found = self.position(code);
        found.is_some()
    }

    /// The number of codes in the set.
    pub fn len(&self) -> (count: usize)
        ensures
            self@.finite(),
            count == self@.len(),
    {
        proof {
            use_type_invariant(self);
            self.codes@.unique_seq_to_set();
        }
        self.codes.len()
    }

    /// Whether the set holds no code.
    pub fn is_empty(&self) -> (empty: bool)
        ensures
            empty == (self@ == Set::<OsCode>::empty()),
    {
        let empty = self.codes.len() == 0;
        proof {
            if empty {
                assert(self@ =~= Set::<OsCode>::empty());
            } else {
                assert(self.codes@.contains(self.codes@[0]));
                assert(self@.contains(self.codes@[0]));
            }
        }
        empty
    }

    /// Puts `code` into the set and says whether it was new.
    pub fn insert(&mut self, code: OsCode) -> (fresh: bool)
        ensures
            final(self)@ == old(self)@.insert(code),
            fresh == !old(self)@.contains(code),
    {
        proof {
            use_type_invariant(&*self);
        }
        match self.position(code) {
            Some(_) => {
                assert(self@ =~= self@.insert(code));
                false
            },
            None => {
                let ghost before = self.codes@;
                let mut codes: Vec<OsCode> = Vec::new();
                core::mem::swap(&mut self.codes, &mut codes);
                codes.push(code);
                proof {
                    assert(codes@ =~= before.push(code));
                    before.lemma_push_to_set_commute(code);
                }
                self.codes = codes;
                true
            },
        }
    }

    /// Takes `code` out of the set and says whether it was there.
    pub fn remove(&mut self, code: OsCode) -> (present: bool)
        ensures
            final(self)@ == old(self)@.remove(code),
            present == old(self)@.contains(code),
    {
        proof {
            use_type_invariant(&*self);
        }
        match self.position(code) {
            Some(i) => {
                let ghost before = self.codes@;
                let mut codes: Vec<OsCode> = Vec::new();
                core::mem::swap(&mut self.codes, &mut codes);
                codes.remove(i);
                proof {
                    let after = codes@;
                    assert(after =~= before.remove(i as int));
                    assert(after.no_duplicates());
                    assert(after.to_set() =~= before.to_set().remove(code)) by {
                        assert forall|c: OsCode| after.contains(c) implies before.contains(c) && c
                            != code by {
                            let j = choose|j: int| 0 <= j < after.len() && after[j] == c;
                            if j < i {
                                assert(before[j] == c);
                            } else {
                                assert(before[j + 1] == c);
                            }
                        }
                        assert forall|c: OsCode| before.contains(c) && c != code implies after.contains(
                            c,
                        ) by {
                            let j = choose|j: int| 0 <= j < before.len() && before[j] == c;
                            if j < i {
                                assert(after[j] == c);
                            } else {
                                assert(after[j - 1] == c);
                            }
                        }
                    }
                }
                self.codes = codes;
                true
            },
            None => {
                assert(self@ =~= self@.remove(code));
                false
            },
        }
    }
}

} // verus!
