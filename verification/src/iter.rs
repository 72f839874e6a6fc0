//! Going through all the indices of one size.

use crate::index::Andex;
use vstd::prelude::*;

verus! {

/// The indices of one size that are still to come, in ascending order.
///
/// It holds the index that comes next, or nothing once the last one is out.
#[derive(Debug)]
pub struct AndexIterator<M, const SIZE: usize>(Option<Andex<M, SIZE>>);

impl<M, const SIZE: usize> AndexIterator<M, SIZE> {
    /// The invariant of the type: the index that comes next is a valid one.
    #[verifier::type_invariant]
    pub closed spec fn wf(&self) -> bool {
        self.0 matches Some(i) ==> i.wf()
    }

    /// The position of the index that comes next; `SIZE` when none is left.
    pub closed spec fn cursor(&self) -> nat {
        match self.0 {
            Some(i) => i@,
            None => SIZE as nat,
        }
    }

    /// The indices that are still to come.
    pub closed spec fn rest(&self) -> Seq<Andex<M, SIZE>> {
        Seq::new(
            (SIZE - self.cursor()) as nat,
            |k: int| Andex::<M, SIZE>::at((self.cursor() + k) as nat),
        )
    }

    /// The iterator before anything was taken from it.
    pub closed spec fn start() -> Self {
        AndexIterator(
            if SIZE > 0 {
                Some(Andex::<M, SIZE>::at(0))
            } else {
                None
            },
        )
    }

    /// At the start every index is still to come.
    pub proof fn lemma_start_rest()
        ensures
            Self::start().wf(),
            Self::start().rest() == Andex::<M, SIZE>::indices(),
    {
        broadcast use Andex::lemma_view_at;

        assert(Self::start().rest() =~= Andex::<M, SIZE>::indices());
    }

    /// What is still to come are the indices from the cursor on, each one
    /// position after the one before, up to the last index.
    pub proof fn lemma_rest(self)
        requires
            self.wf(),
        ensures
            self.cursor() <= SIZE,
            self.rest().len() == SIZE - self.cursor(),
            self.rest() == Andex::<M, SIZE>::indices().skip(self.cursor() as int),
            forall|k: int|
                0 <= k < self.rest().len() ==> (#[trigger] self.rest()[k]).wf() && self.rest()[k]@
                    == self.cursor() + k,
    {
        broadcast use Andex::lemma_view_at;

        assert(self.rest() =~= Andex::<M, SIZE>::indices().skip(self.cursor() as int));
    }
}

impl<M, const SIZE: usize> Default for AndexIterator<M, SIZE> {
    /// The iterator with every index still to come.
    fn default() -> (r: Self)
        ensures
            r == Self::start(),
    {
        if 0 < SIZE {
            let first = Andex::<M, SIZE>::first();
            proof {
                first.lemma_at_view();
            }
            AndexIterator(Some(first))
        } else {
            AndexIterator(None)
        }
    }
}

impl<M, const SIZE: usize> Iterator for AndexIterator<M, SIZE> {
    type Item = Andex<M, SIZE>;

    /// Hands out the index that comes next and moves on; gives `None`, again
    /// and again, once the last index is out.
    fn next(&mut self) -> (r: Option<Andex<M, SIZE>>)
        ensures
            old(self).rest().len() > 0 ==> r == Some(old(self).rest()[0]) && final(self).rest()
                == old(self).rest().drop_first(),
            old(self).rest().len() == 0 ==> r is None && *final(self) == *old(self),
    {
        proof {
            use_type_invariant(&*self);
        }
        if let Some(i) = self.0 {
            self.0 = i.next();
            proof {
                broadcast use Andex::lemma_view_at;

                i.lemma_at_view();
                assert(self.rest() =~= old(self).rest().drop_first());
            }
            Some(i)
        } else {
            None
        }
    }
}

impl<M, const SIZE: usize> vstd::std_specs::iter::IteratorSpecImpl for AndexIterator<M, SIZE> {
    open spec fn obeys_prophetic_iter_laws(&self) -> bool {
        true
    }

    open spec fn remaining(&self) -> Seq<Self::Item> {
        self.rest()
    }

    open spec fn will_return_none(&self) -> bool {
        true
    }

    open spec fn decrease(&self) -> Option<nat> {
        Some(self.rest().len())
    }

    open spec fn initial_value_relation(&self, init: &Self) -> bool {
        init.rest() == self.rest()
    }

    open spec fn peek(&self, index: int) -> Option<Self::Item> {
        if 0 <= index < self.rest().len() {
            Some(self.rest()[index])
        } else {
            None
        }
    }
}

} // verus!
