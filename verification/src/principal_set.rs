//! A set of principals, kept as a list in which nothing occurs twice.

use vstd::prelude::*;
use crate::principal::Principal;

verus! {

/// The principals of a list, as plain values.
pub open spec fn principal_views(items: Seq<Principal>) -> Seq<Seq<u8>> {
    Seq::new(items.len(), |i: int| items[i]@)
}

/// A set of principals. Its view lists the members in the order in which they
/// were added.
#[derive(Debug)]
pub struct PrincipalSet {
    items: Vec<Principal>,
}

impl View for PrincipalSet {
    type V = Seq<Seq<u8>>;

    closed spec fn view(&self) -> Seq<Seq<u8>> {
        principal_views(self.items@)
    }
}

impl PrincipalSet {
    /// No member is listed twice.
    pub open spec fn wf(&self) -> bool {
        self@.no_duplicates()
    }

    pub fn new() -> (r: PrincipalSet)
        ensures
            r.wf(),
            r@ == Seq::<Seq<u8>>::empty(),
    {
        let r = PrincipalSet { items: Vec::new() };
        proof {
            assert(r@ =~= Seq::<Seq<u8>>::empty());
        }
        r
    }

    pub fn is_empty(&self) -> (r: bool)
        ensures
            r == (self@.len() == 0),
    {
        self.items.len() == 0
    }

    /// The number of members.
    pub fn count(&self) -> (r: usize)
        ensures
            r == self@.len(),
    {
        self.items.len()
    }

    fn position(&self, p: &Principal) -> (r: Option<usize>)
        ensures
            r matches Some(i) ==> i < self@.len() && self@[i as int] == p@ && forall|j: int|
                0 <= j < i ==> self@[j] != p@,
            r.is_none() ==> !self@.contains(p@),
    {
        let n: usize = self.items.len();
        let mut i: usize = 0;
        while i < n
            invariant
                i <= n,
                n == self.items@.len(),
                forall|j: int| 0 <= j < i ==> self@[j] != p@,
            decreases n - i,
        {
            if self.items[i].same(p) {
                return Some(i);
            }
            i = i + 1;
        }
        None
    }

    pub fn contains(&self, p: &Principal) -> (r: bool)
        ensures
            r == self@.contains(p@),
    {
        match self.position(p) {
            Some(i) => {
                proof {
                    assert(self@[i as int] == p@);
                }
                true
            },
            None => false,
        }
    }

    /// Add `p`, which must not be a member yet.
    pub fn insert(&mut self, p: Principal)
        requires
            old(self).wf(),
            !old(self)@.contains(p@),
        ensures
            final(self).wf(),
            final(self)@ == old(self)@.push(p@),
    {
        let ghost before = self@;
        self.items.push(p);
        proof {
            assert(self@ =~= before.push(p@));
            assert forall|i: int, j: int|
                0 <= i < self@.len() && 0 <= j < self@.len() && i != j implies self@[i]
                != self@[j] by {
                if i < before.len() && j < before.len() {
                    assert(before[i] != before[j]);
                } else if i < before.len() {
                    assert(before.contains(before[i]));
                } else {
                    assert(before.contains(before[j]));
                }
            }
        }
    }

    /// Remove `p`, if it is a member.
    pub fn remove(&mut self, p: &Principal)
        requires
            old(self).wf(),
        ensures
            final(self).wf(),
            final(self)@ == old(self)@.remove_value(p@),
            !final(self)@.contains(p@),
            forall|q: Seq<u8>| q != p@ ==> (final(self)@.contains(q) <==> old(self)@.contains(q)),
            final(self)@.len() <= old(self)@.len(),
    {
        let ghost before = self@;
        match self.position(p) {
            Some(i) => {
                self.items.remove(i);
                proof {
                    let after = self@;
                    assert(after =~= before.remove(i as int));
                    assert(before.index_of_first(p@) == Some(i as int)) by {
                        before.index_of_first_ensures(p@);
                        assert(before.contains(p@));
                    }
                    assert forall|a: int, b: int|
                        0 <= a < after.len() && 0 <= b < after.len() && a != b implies after[a]
                        != after[b] by {
                        let a0 = if a < i { a } else { a + 1 };
                        let b0 = if b < i { b } else { b + 1 };
                        assert(after[a] == before[a0]);
                        assert(after[b] == before[b0]);
                    }
                    assert(!after.contains(p@)) by {
                        if after.contains(p@) {
                            let k = choose|k: int| 0 <= k < after.len() && after[k] == p@;
                            let k0 = if k < i { k } else { k + 1 };
                            assert(after[k] == before[k0]);
                            assert(before[i as int] == p@);
                        }
                    }
                    assert forall|q: Seq<u8>| q != p@ implies (after.contains(q)
                        <==> before.contains(q)) by {
                        if after.contains(q) {
                            let k = choose|k: int| 0 <= k < after.len() && after[k] == q;
                            let k0 = if k < i { k } else { k + 1 };
                            assert(before[k0] == q);
                        }
                        if before.contains(q) {
                            let k = choose|k: int| 0 <= k < before.len() && before[k] == q;
                            let k1 = if k < i { k } else { k - 1 };
                            assert(after[k1] == q);
                        }
                    }
                }
            },
            None => {
                proof {
                    before.index_of_first_ensures(p@);
                    assert(before.index_of_first(p@).is_none());
                }
            },
        }
    }
}

} // verus!
