//! The set of markets a socket is subscribed to, kept without repeats in
//! the order they were first added.

use vstd::prelude::*;

use crate::json::views;
use crate::text::str_eq;

verus! {

/// Subscribed market ids.
#[derive(Debug)]
pub struct MarketSet {
    ids: Vec<String>,
}

impl MarketSet {
    /// No id occurs twice.
    #[verifier::type_invariant]
    spec fn wf(self) -> bool {
        forall|i: int, j: int| 0 <= i < j < self.ids@.len() ==> self.ids@[i]@ != self.ids@[j]@
    }

    /// The ids, in order.
    pub closed spec fn ids_view(self) -> Seq<Seq<char>> {
        views(self.ids@)
    }

    /// The set of ids.
    pub open spec fn set_view(self) -> Set<Seq<char>> {
        self.ids_view().to_set()
    }

    /// No markets.
    pub fn new() -> (r: Self)
        ensures
            r.ids_view() == Seq::<Seq<char>>::empty(),
    {
        let r = MarketSet { ids: Vec::new() };
        assert(views(r.ids@) =~= Seq::<Seq<char>>::empty());
        r
    }

    /// The position of `id`, if it is there.
    fn position(&self, id: &str) -> (r: Option<usize>)
        ensures
            match r {
                Some(k) => k < self.ids_view().len() && self.ids_view()[k as int] == id@,
                None => !self.ids_view().contains(id@),
            },
    {
        let mut i: usize = 0;
        while i < self.ids.len()
            invariant
                i <= self.ids@.len(),
                forall|k: int| 0 <= k < i ==> self.ids@[k]@ != id@,
            decreases self.ids.len() - i,
        {
            if str_eq(self.ids[i].as_str(), id) {
                return Some(i);
            }
            i = i + 1;
        }
        proof {
            if self.ids_view().contains(id@) {
                let k = choose|k: int| 0 <= k < self.ids_view().len() && self.ids_view()[k] == id@;
                assert(self.ids@[k]@ == id@);
            }
        }
        None
    }

    /// Whether `id` is subscribed.
    pub fn contains(&self, id: &str) -> (r: bool)
        ensures
            r == self.ids_view().contains(id@),
    {
        self.position(id).is_some()
    }

    /// Adds `id`; an id already there stays where it is.
    pub fn insert(&mut self, id: &str)
        ensures
            final(self).ids_view() == inserted(old(self).ids_view(), id@),
    {
        proof {
            use_type_invariant(&*self);
        }
        if self.position(id).is_none() {
            let mut ids: Vec<String> = Vec::new();
            std::mem::swap(&mut ids, &mut self.ids);
            let ghost before = ids@;
            ids.push(id.to_owned());
            assert(views(ids@) =~= views(before).push(id@));
            assert forall|i: int, j: int| 0 <= i < j < ids@.len() implies ids@[i]@ != ids@[j]@ by {
                if j == ids@.len() - 1 {
                    assert(views(before)[i] == ids@[i]@);
                }
            }
            self.ids = ids;
        }
    }

    /// Removes `id`, keeping the others in order.
    pub fn remove(&mut self, id: &str)
        ensures
            !final(self).ids_view().contains(id@),
            forall|x: Seq<char>| x != id@ ==> (final(self).ids_view().contains(x)
                <==> old(self).ids_view().contains(x)),
    {
        proof {
            use_type_invariant(&*self);
        }
        match self.position(id) {
            Some(k) => {
                let mut ids: Vec<String> = Vec::new();
                std::mem::swap(&mut ids, &mut self.ids);
                let ghost before = ids@;
                ids.remove(k);
                proof {
                    assert(ids@ =~= before.subrange(0, k as int) + before.subrange(
                        k + 1,
                        before.len() as int,
                    ));
                    assert forall|x: Seq<char>| x != id@ implies (views(ids@).contains(x)
                        <==> views(before).contains(x)) by {
                        if views(before).contains(x) {
                            let j = choose|j: int| 0 <= j < views(before).len() && views(before)[j] == x;
                            if j < k {
                                assert(views(ids@)[j] == x);
                            } else {
                                assert(j != k);
                                assert(views(ids@)[j - 1] == x);
                            }
                        }
                        if views(ids@).contains(x) {
                            let j = choose|j: int| 0 <= j < views(ids@).len() && views(ids@)[j] == x;
                            if j < k {
                                assert(views(before)[j] == x);
                            } else {
                                assert(views(before)[j + 1] == x);
                            }
                        }
                    }
                    if views(ids@).contains(id@) {
                        let j = choose|j: int| 0 <= j < views(ids@).len() && views(ids@)[j] == id@;
                        if j < k {
                            assert(before[j]@ == before[k as int]@);
                        } else {
                            assert(before[j + 1]@ == before[k as int]@);
                        }
                    }
                    assert forall|i: int, j: int| 0 <= i < j < ids@.len() implies ids@[i]@ != ids@[j]@ by {
                        if j < k {
                            assert(before[i]@ != before[j]@);
                        } else if i < k {
                            assert(before[i]@ != before[j + 1]@);
                        } else {
                            assert(before[i + 1]@ != before[j + 1]@);
                        }
                    }
                }
                self.ids = ids;
            },
            None => {},
        }
    }

    /// A copy of the ids, in order.
    pub fn to_vec(&self) -> (r: Vec<String>)
        ensures
            views(r@) == self.ids_view(),
    {
        let mut r: Vec<String> = Vec::new();
        let mut i: usize = 0;
        while i < self.ids.len()
            invariant
                i <= self.ids@.len(),
                views(r@) == views(self.ids@.take(i as int)),
            decreases self.ids.len() - i,
        {
            r.push(self.ids[i].clone());
            assert(views(self.ids@.take(i + 1)) =~= views(self.ids@.take(i as int)).push(
                self.ids@[i as int]@,
            ));
            assert(views(r@) =~= views(r@.drop_last()).push(r@.last()@));
            i = i + 1;
        }
        assert(self.ids@.take(self.ids@.len() as int) =~= self.ids@);
        r
    }

    /// How many markets are subscribed.
    pub fn len(&self) -> (r: usize)
        ensures
            r == self.ids_view().len(),
    {
        self.ids.len()
    }
}

/// The ids after adding `id`: unchanged when it is there, else `id` last.
pub open spec fn inserted(ids: Seq<Seq<char>>, id: Seq<char>) -> Seq<Seq<char>> {
    if ids.contains(id) {
        ids
    } else {
        ids.push(id)
    }
}

/// Subscribing and then asking gives yes; subscribing twice is subscribing
/// once; subscribing keeps every market already there.
pub proof fn lemma_subscribe_laws(before: Seq<Seq<char>>, id: Seq<char>, other: Seq<char>)
    ensures
        inserted(before, id).contains(id),
        inserted(inserted(before, id), id) == inserted(before, id),
        before.contains(other) ==> inserted(before, id).contains(other),
{
    if !before.contains(id) {
        assert(before.push(id)[before.len() as int] == id);
        if before.contains(other) {
            let j = choose|j: int| 0 <= j < before.len() && before[j] == other;
            assert(before.push(id)[j] == other);
        }
    }
}

} // verus!
