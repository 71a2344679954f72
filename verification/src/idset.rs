//! A set of identifiers that can be walked.
use crate::ids::views;
use crate::text::same;
use vstd::prelude::*;

verus! {

/// Identifiers without repetition.
#[derive(Debug)]
pub struct IdSet {
    ids: Vec<String>,
}

impl View for IdSet {
    type V = Set<Seq<char>>;

    closed spec fn view(&self) -> Set<Seq<char>> {
        views(self.ids@).to_set()
    }
}

impl Clone for IdSet {
    fn clone(&self) -> (r: Self)
        ensures
            r@ == self@,
    {
        proof {
            use_type_invariant(self);
        }
        let ids = copied(&self.ids);
        IdSet { ids }
    }
}

/// A copy of a list of identifiers.
pub fn copied(list: &Vec<String>) -> (r: Vec<String>)
    ensures
        views(r@) == views(list@),
{
    let mut out: Vec<String> = Vec::new();
    for i in 0..list.len()
        invariant
            out@.len() == i,
            forall|j: int| 0 <= j < i ==> (#[trigger] out@[j])@ == list@[j]@,
    {
        out.push(list[i].clone());
    }
    assert(views(out@) =~= views(list@));
    out
}

impl IdSet {
    /// No identifier occurs twice.
    #[verifier::type_invariant]
    spec fn distinct(self) -> bool {
        views(self.ids@).no_duplicates()
    }

    /// The empty set.
    pub fn new() -> (r: Self)
        ensures
            r@ == Set::<Seq<char>>::empty(),
    {
        let ids: Vec<String> = Vec::new();
        assert(views(ids@) =~= Seq::<Seq<char>>::empty());
        let r = IdSet { ids };
        assert(r@ =~= Set::<Seq<char>>::empty());
        r
    }

    fn position(&self, id: &str) -> (r: Option<usize>)
        ensures
            r matches Some(i) ==> i < self.ids@.len() && self.ids@[i as int]@ == id@,
            r is None ==> !self@.contains(id@),
            r is Some ==> self@.contains(id@),
    {
        let mut i: usize = 0;
        while i < self.ids.len()
            invariant
                i <= self.ids@.len(),
                forall|j: int| 0 <= j < i ==> (#[trigger] self.ids@[j])@ != id@,
            decreases self.ids@.len() - i,
        {
            if same(self.ids[i].as_str(), id) {
                assert(views(self.ids@)[i as int] == id@);
                return Some(i);
            }
            i += 1;
        }
        assert(!self@.contains(id@)) by {
            if self@.contains(id@) {
                let j = choose|j: int|
                    0 <= j < views(self.ids@).len() && views(self.ids@)[j] == id@;
                assert(self.ids@[j]@ == id@);
            }
        }
        None
    }

    /// Whether the set holds `id`.
    pub fn contains(&self, id: &str) -> (r: bool)
        ensures
            r == self@.contains(id@),
    {
        self.position(id).is_some()
    }

    /// Whether the set is empty.
    pub fn is_empty(&self) -> (r: bool)
        ensures
            r == (self@ == Set::<Seq<char>>::empty()),
    {
        let r = self.ids.len() == 0;
        proof {
            if r {
                assert(views(self.ids@) =~= Seq::<Seq<char>>::empty());
                assert(self@ =~= Set::<Seq<char>>::empty());
            } else {
                assert(views(self.ids@)[0] == self.ids@[0]@);
                assert(self@.contains(self.ids@[0]@));
            }
        }
        r
    }

    /// Adds `id`; says whether it is new.
    pub fn insert(&mut self, id: String) -> (r: bool)
        ensures
            final(self)@ == old(self)@.insert(id@),
            r == !old(self)@.contains(id@),
    {
        if self.contains(id.as_str()) {
            assert(self@ =~= old(self)@.insert(id@));
            return false;
        }
        proof {
            use_type_invariant(&*self);
        }
        let ghost before = views(self.ids@);
        let mut ids: Vec<String> = Vec::new();
        assert(views(ids@) =~= Seq::<Seq<char>>::empty());
        std::mem::swap(&mut self.ids, &mut ids);
        ids.push(id);
        let ghost after = views(ids@);
        assert(after =~= before.push(id@));
        assert(after.no_duplicates()) by {
            assert forall|j: int| 0 <= j < before.len() implies before[j] != id@ by {
                if before[j] == id@ {
                    assert(old(self)@.contains(before[j]));
                }
            }
        }
        self.ids = ids;
        proof {
            assert(self@ =~= old(self)@.insert(id@)) by {
                assert forall|x: Seq<char>| #[trigger]
                    self@.contains(x) <==> old(self)@.insert(id@).contains(x) by {
                    if old(self)@.contains(x) {
                        let j = choose|j: int| 0 <= j < before.len() && before[j] == x;
                        assert(after[j] == x);
                    }
                    assert(after[before.len() as int] == id@);
                }
            }
        }
        true
    }

    /// Removes `id`; says whether it was there.
    pub fn remove(&mut self, id: &str) -> (r: bool)
        ensures
            final(self)@ == old(self)@.remove(id@),
            r == old(self)@.contains(id@),
    {
        match self.position(id) {
            None => {
                assert(self@ =~= old(self)@.remove(id@));
                false
            },
            Some(i) => {
                proof {
                    use_type_invariant(&*self);
                }
                let ghost before = views(self.ids@);
                let mut ids: Vec<String> = Vec::new();
                assert(views(ids@) =~= Seq::<Seq<char>>::empty());
                std::mem::swap(&mut self.ids, &mut ids);
                ids.remove(i);
                let ghost after = views(ids@);
                let ghost k = i as int;
                proof {
                    assert(after =~= before.remove(k));
                    assert(before[k] == id@);
                    assert forall|a: int, b: int|
                        0 <= a < after.len() && 0 <= b < after.len() && a != b implies after[a]
                        != after[b] by {
                        let a0 = if a < k {
                            a
                        } else {
                            a + 1
                        };
                        let b0 = if b < k {
                            b
                        } else {
                            b + 1
                        };
                        assert(after[a] == before[a0]);
                        assert(after[b] == before[b0]);
                    }
                }
                self.ids = ids;
                proof {
                    assert(self@ =~= old(self)@.remove(id@)) by {
                        assert forall|x: Seq<char>| #[trigger]
                            self@.contains(x) <==> old(self)@.remove(id@).contains(x) by {
                            if self@.contains(x) {
                                let a = choose|a: int| 0 <= a < after.len() && after[a] == x;
                                let a0 = if a < k {
                                    a
                                } else {
                                    a + 1
                                };
                                assert(before[a0] == x);
                            }
                            if old(self)@.contains(x) && x != id@ {
                                let a0 = choose|a0: int| 0 <= a0 < before.len() && before[a0] == x;
                                let a = if a0 < k {
                                    a0
                                } else {
                                    a0 - 1
                                };
                                assert(after[a] == x);
                            }
                        }
                    }
                }
                true
            },
        }
    }

    /// The identifiers as a list, each once.
    pub fn to_vec(&self) -> (r: Vec<String>)
        ensures
            views(r@).no_duplicates(),
            views(r@).to_set() == self@,
    {
        proof {
            use_type_invariant(self);
        }
        copied(&self.ids)
    }
}

} // verus!
