//! The identifiers of the IQ requests whose answers are waited for, each at most once.
use vstd::prelude::*;
use crate::text::str_eq;

verus! {

/// No identifier occurs twice.
pub open spec fn ids_distinct(ids: Seq<Seq<char>>) -> bool {
    forall|i: int, j: int| 0 <= i < j < ids.len() ==> ids[i] != ids[j]
}

/// The identifiers of the IQ requests whose answers are waited for, in the order they were
/// added; an identifier is held at most once, as the keys of a map are.
#[derive(Debug)]
pub struct PendingIqs {
    ids: Vec<String>,
}

impl PendingIqs {
    /// The identifiers held, in order.
    pub closed spec fn ids(&self) -> Seq<Seq<char>> {
        self.ids@.map_values(|s: String| s@)
    }

    #[verifier::type_invariant]
    spec fn no_duplicate(self) -> bool {
        ids_distinct(self.ids@.map_values(|s: String| s@))
    }

    /// No identifier is held.
    pub fn new() -> (r: PendingIqs)
        ensures
            r.ids() == Seq::<Seq<char>>::empty(),
    {
        let r = PendingIqs { ids: Vec::new() };
        assert(r.ids() =~= Seq::<Seq<char>>::empty());
        r
    }

    /// The identifiers held are distinct.
    pub fn distinct(&self)
        ensures
            ids_distinct(self.ids()),
    {
        proof {
            use_type_invariant(self);
        }
    }

    /// The number of identifiers held.
    pub fn len(&self) -> (r: usize)
        ensures
            r == self.ids().len(),
    {
        self.ids.len()
    }

    /// Whether no identifier is held.
    pub fn is_empty(&self) -> (r: bool)
        ensures
            r == (self.ids().len() == 0),
    {
        self.ids.len() == 0
    }

    /// Where `id` is held, if it is.
    pub fn position(&self, id: &str) -> (r: Option<usize>)
        ensures
            match r {
                Some(i) => i < self.ids().len() && self.ids()[i as int] == id@,
                None => !self.ids().contains(id@),
            },
    {
        let mut i: usize = 0;
        while i < self.ids.len()
            invariant
                0 <= i <= self.ids@.len(),
                forall|j: int| 0 <= j < i ==> self.ids()[j] != id@,
            decreases self.ids@.len() - i,
        {
            assert(self.ids()[i as int] == self.ids@[i as int]@);
            if str_eq(self.ids[i].as_str(), id) {
                return Some(i);
            }
            i = i + 1;
        }
        proof {
            if self.ids().contains(id@) {
                let k = choose|k: int| 0 <= k < self.ids().len() && self.ids()[k] == id@;
                assert(self.ids()[k] != id@);
            }
        }
        None
    }

    /// Adds `id`, unless it is held already.
    pub fn insert(&mut self, id: &str)
        ensures
            final(self).ids() == (if old(self).ids().contains(id@) {
                old(self).ids()
            } else {
                old(self).ids().push(id@)
            }),
    {
        proof {
            use_type_invariant(&*self);
        }
        if self.position(id).is_some() {
            return;
        }
        let ghost pre = self.ids();
        assert(ids_distinct(pre.push(id@))) by {
            assert forall|i: int, j: int| 0 <= i < j < pre.push(id@).len() implies pre.push(id@)[i] != pre.push(id@)[j] by {
                if j == pre.len() {
                    assert(pre[i] != id@) by {
                        if pre[i] == id@ {
                            assert(pre.contains(id@));
                        }
                    }
                }
            }
        }
        let mut ids: Vec<String> = Vec::new();
        std::mem::swap(&mut ids, &mut self.ids);
        ids.push(id.to_owned());
        assert(ids@.map_values(|s: String| s@) =~= pre.push(id@));
        self.ids = ids;
    }

    /// Takes out the identifier at position `i`.
    pub fn remove(&mut self, i: usize) -> (r: String)
        requires
            i < old(self).ids().len(),
        ensures
            r@ == old(self).ids()[i as int],
            final(self).ids() == old(self).ids().remove(i as int),
    {
        proof {
            use_type_invariant(&*self);
        }
        let ghost pre = self.ids();
        assert(ids_distinct(pre.remove(i as int))) by {
            assert forall|a: int, b: int| 0 <= a < b < pre.remove(i as int).len() implies
                pre.remove(i as int)[a] != pre.remove(i as int)[b] by {
                let a2 = if a < i { a } else { a + 1 };
                let b2 = if b < i { b } else { b + 1 };
                assert(pre.remove(i as int)[a] == pre[a2]);
                assert(pre.remove(i as int)[b] == pre[b2]);
            }
        }
        let mut ids: Vec<String> = Vec::new();
        std::mem::swap(&mut ids, &mut self.ids);
        let r = ids.remove(i);
        assert(ids@.map_values(|s: String| s@) =~= pre.remove(i as int));
        self.ids = ids;
        r
    }
}

} // verus!
