//! The index type: how an index is made, compared and turned into its
//! neighbours.

use crate::decimal;
use crate::error::Error;
use crate::iter::AndexIterator;
use core::cmp::Ordering;
use core::marker::PhantomData;
use vstd::prelude::*;
use vstd::std_specs::cmp::PartialEqSpec;
use vstd::std_specs::cmp::PartialOrdSpec;
use vstd::std_specs::convert::FromSpec;

verus! {

/// A position among exactly `SIZE` slots.
///
/// The marker `M` has no run-time content; it only tells apart index types
/// of equal size that belong to different arrays.
#[derive(Debug, Ord)]
pub struct Andex<M, const SIZE: usize>(PhantomData<M>, usize);

impl<M, const SIZE: usize> View for Andex<M, SIZE> {
    type V = nat;

    /// The position that the index stands for.
    closed spec fn view(&self) -> nat {
        self.1 as nat
    }
}

impl<M, const SIZE: usize> Andex<M, SIZE> {
    /// The invariant of the type: the position is below `SIZE`.
    #[verifier::type_invariant]
    pub open spec fn wf(&self) -> bool {
        self@ < SIZE
    }

    /// The index at position `v`.
    pub closed spec fn at(v: nat) -> Self {
        Andex(PhantomData, v as usize)
    }

    /// The first index, where there is one.
    pub open spec fn spec_first() -> Self {
        Self::at(0)
    }

    /// The last index, where there is one.
    pub open spec fn spec_last() -> Self {
        Self::at((SIZE - 1) as nat)
    }

    /// The index as far from the end as `self` is from the start.
    pub open spec fn spec_pair(self) -> Self {
        Self::at((SIZE - 1 - self@) as nat)
    }

    /// The index after `self`, if `self` is not the last.
    pub open spec fn spec_next(self) -> Option<Self> {
        if self@ + 1 < SIZE {
            Some(Self::at(self@ + 1))
        } else {
            None
        }
    }

    /// Every index, in ascending order.
    pub open spec fn indices() -> Seq<Self> {
        Seq::new(SIZE as nat, |i: int| Self::at(i as nat))
    }

    /// What making an index of `value` gives: the index at that position,
    /// or the reason why there is none.
    pub open spec fn spec_try_from(value: usize) -> Result<Self, Error> {
        if value < SIZE {
            Ok(Self::at(value as nat))
        } else {
            Err(Error::OutOfBounds { value, size: SIZE })
        }
    }

    /// What reading `text` as an index gives.
    pub open spec fn parse_spec(text: Seq<char>) -> Result<Self, Error> {
        match decimal::parse_spec(text) {
            Ok(value) => Self::spec_try_from(value),
            Err(failure) => Err(Error::ParseIntError(failure)),
        }
    }

    /// An index is determined by its position.
    pub broadcast proof fn lemma_at_view(self)
        ensures
            #[trigger] Self::at(self@) == self,
    {
    }

    /// Below `SIZE`, `at` gives a valid index at the position asked for.
    pub broadcast proof fn lemma_view_at(v: nat)
        requires
            v < SIZE,
        ensures
            (#[trigger] Self::at(v))@ == v,
            Self::at(v).wf(),
    {
    }

    /// Two indices are the same exactly when their positions are.
    pub proof fn lemma_equal_by_position(self, other: Self)
        ensures
            self == other <==> self@ == other@,
    {
        self.lemma_at_view();
        other.lemma_at_view();
    }

    /// A value below `SIZE` makes the index at that position, from which the
    /// value is read back; any other value makes no index, and the error
    /// names the value and `SIZE`.
    pub proof fn lemma_try_from_round_trip(value: usize)
        ensures
            value < SIZE ==> Self::spec_try_from(value) is Ok && Self::spec_try_from(
                value,
            )->Ok_0.wf() && Self::spec_try_from(value)->Ok_0@ == value,
            value < SIZE ==> usize::from_spec(Self::spec_try_from(value)->Ok_0) == value,
            value >= SIZE ==> Self::spec_try_from(value) == Err::<Self, Error>(
                Error::OutOfBounds { value, size: SIZE },
            ),
    {
        if value < SIZE {
            Self::lemma_view_at(value as nat);
        }
    }

    /// The text of a position below `SIZE`, written in decimal notation,
    /// reads back as the index at that position.
    pub proof fn lemma_parse_written(self)
        requires
            self.wf(),
        ensures
            Self::parse_spec(decimal::digits_of(self@)) == Ok::<Self, Error>(self),
    {
        decimal::lemma_parse_digits_of(self@ as usize);
        self.lemma_at_view();
    }

    /// Mirroring twice gives the index back.
    pub proof fn lemma_pair_involution(self)
        requires
            self.wf(),
        ensures
            self.pair().wf(),
            self.pair().pair() == self,
    {
        Self::lemma_view_at((SIZE - 1 - self@) as nat);
        self.lemma_at_view();
    }

    /// The first index and the last index mirror each other.
    pub proof fn lemma_pair_first_last()
        requires
            SIZE >= 1,
        ensures
            Self::first().pair() == Self::last(),
            Self::last().pair() == Self::first(),
    {
        Self::lemma_view_at(0);
        Self::lemma_view_at((SIZE - 1) as nat);
    }

    /// The index after `self` is one position further, and it is there
    /// exactly when `self` is not the last index.
    pub proof fn lemma_next(self)
        requires
            self.wf(),
        ensures
            self.next() is Some <==> self != Self::last(),
            self.next() matches Some(n) ==> n.wf() && n@ == self@ + 1,
    {
        Self::lemma_view_at((SIZE - 1) as nat);
        self.lemma_equal_by_position(Self::last());
        if self@ + 1 < SIZE {
            Self::lemma_view_at(self@ + 1);
        }
    }

    /// Indices compare as their positions do: `<`, `==` and `>` on indices
    /// are `<`, `==` and `>` on the positions.
    pub proof fn lemma_order_by_position(self, other: Self)
        ensures
            self.partial_cmp_spec(&other) == Some(Ordering::Less) <==> self@ < other@,
            self.partial_cmp_spec(&other) == Some(Ordering::Equal) <==> self@ == other@,
            self.partial_cmp_spec(&other) == Some(Ordering::Greater) <==> self@ > other@,
            self.eq_spec(&other) <==> self@ == other@,
            self.eq_spec(&other) <==> self == other,
    {
        self.lemma_equal_by_position(other);
    }

    /// There are `SIZE` indices; the one in place `k` is at position `k`, so
    /// they are all different and strictly ascending.
    pub proof fn lemma_indices()
        ensures
            Self::indices().len() == SIZE,
            forall|k: int|
                0 <= k < SIZE ==> (#[trigger] Self::indices()[k]).wf() && Self::indices()[k]@
                    == k,
            forall|j: int, k: int|
                0 <= j < k < SIZE ==> (#[trigger] Self::indices()[j])@ < (
                #[trigger] Self::indices()[k])@,
    {
        assert forall|k: int| 0 <= k < SIZE implies (#[trigger] Self::indices()[k]).wf()
            && Self::indices()[k]@ == k by {
            Self::lemma_view_at(k as nat);
        }
    }

    /// The index at the compile-time position `N`.
    ///
    /// A position that is not below `SIZE` is refused when the caller is
    /// verified; reached from unverified code, it stops the program rather
    /// than make an index that is out of range.
    pub fn new<const N: usize>() -> (r: Self)
        requires
            N < SIZE,
        ensures
            r@ == N,
    {
        if N < SIZE {
            Andex(PhantomData, N)
        } else {
            vstd::pervasive::unreached()
        }
    }

    /// The first index, at position 0. There is none when `SIZE` is 0.
    #[verifier::when_used_as_spec(spec_first)]
    pub fn first() -> (r: Self)
        requires
            SIZE >= 1,
        ensures
            r == Self::spec_first(),
            r@ == 0,
    {
        if 0 < SIZE {
            Andex(PhantomData, 0)
        } else {
            vstd::pervasive::unreached()
        }
    }

    /// The last index, at position `SIZE - 1`. There is none when `SIZE` is 0.
    #[verifier::when_used_as_spec(spec_last)]
    pub fn last() -> (r: Self)
        requires
            SIZE >= 1,
        ensures
            r == Self::spec_last(),
            r@ == SIZE - 1,
    {
        if 0 < SIZE {
            Andex(PhantomData, SIZE - 1)
        } else {
            vstd::pervasive::unreached()
        }
    }

    /// The index at the mirrored position: as far from the end as `self` is
    /// from the start.
    #[verifier::when_used_as_spec(spec_pair)]
    pub fn pair(self) -> (r: Self)
        ensures
            r == self.spec_pair(),
            r@ == SIZE - 1 - self@,
    {
        proof {
            use_type_invariant(&self);
        }
        Andex(PhantomData, SIZE - self.1 - 1)
    }

    /// The index after `self`, or `None` if `self` is the last one.
    #[verifier::when_used_as_spec(spec_next)]
    pub fn next(self) -> (r: Option<Self>)
        ensures
            r == self.spec_next(),
            self@ + 1 < SIZE ==> r is Some && r->Some_0@ == self@ + 1,
            self@ + 1 >= SIZE ==> r is None,
    {
        proof {
            use_type_invariant(&self);
        }
        let i: usize = self.1;
        if i < SIZE - 1 {
            Some(Andex(PhantomData, i + 1))
        } else {
            None
        }
    }

    /// Goes through every index once, from the first to the last.
    #[verifier::when_used_as_spec(spec_iter)]
    pub fn iter() -> (r: AndexIterator<M, SIZE>)
        ensures
            r == Self::spec_iter(),
            r.rest() == Self::indices(),
    {
        proof {
            AndexIterator::<M, SIZE>::lemma_start_rest();
        }
        AndexIterator::default()
    }

    /// The iterator that `iter` returns.
    pub open spec fn spec_iter() -> AndexIterator<M, SIZE> {
        AndexIterator::<M, SIZE>::start()
    }

    /// Designates the element of `arr` at this position.
    pub(crate) fn index_arr<'a, T>(&self, arr: &'a [T; SIZE]) -> (r: &'a T)
        ensures
            *r == arr@[self@ as int],
    {
        proof {
            use_type_invariant(self);
        }
        &arr[self.1]
    }

    /// Designates the element of `arr` at this position, for writing.
    pub(crate) fn index_arr_mut<'a, T>(&self, arr: &'a mut [T; SIZE]) -> (r: &'a mut T)
        ensures
            *r == old(arr)@[self@ as int],
            final(arr)@ == old(arr)@.update(self@ as int, *final(r)),
    {
        proof {
            use_type_invariant(self);
        }
        &mut arr[self.1]
    }
}

impl<M, const SIZE: usize> Clone for Andex<M, SIZE> {
    fn clone(&self) -> (r: Self)
        ensures
            r == *self,
    {
        *self
    }
}

impl<M, const SIZE: usize> Copy for Andex<M, SIZE> {

}

impl<M, const SIZE: usize> PartialEq for Andex<M, SIZE> {
    /// Two indices are equal when they stand for the same position.
    fn eq(&self, other: &Self) -> (r: bool) {
        self.1 == other.1
    }
}

impl<M, const SIZE: usize> vstd::std_specs::cmp::PartialEqSpecImpl for Andex<M, SIZE> {
    open spec fn obeys_eq_spec() -> bool {
        true
    }

    open spec fn eq_spec(&self, other: &Self) -> bool {
        self@ == other@
    }
}

impl<M, const SIZE: usize> Eq for Andex<M, SIZE> {

}

impl<M, const SIZE: usize> PartialOrd for Andex<M, SIZE> {
    /// Indices are ordered as their positions are.
    fn partial_cmp(&self, other: &Self) -> (r: Option<Ordering>) {
        self.1.partial_cmp(&other.1)
    }
}

impl<M, const SIZE: usize> vstd::std_specs::cmp::PartialOrdSpecImpl for Andex<M, SIZE> {
    open spec fn obeys_partial_cmp_spec() -> bool {
        true
    }

    open spec fn partial_cmp_spec(&self, other: &Self) -> Option<Ordering> {
        if self@ < other@ {
            Some(Ordering::Less)
        } else if self@ > other@ {
            Some(Ordering::Greater)
        } else {
            Some(Ordering::Equal)
        }
    }
}

impl<M, const SIZE: usize> From<Andex<M, SIZE>> for usize {
    /// The position of the index, as a plain integer.
    fn from(andex: Andex<M, SIZE>) -> (r: usize)
        ensures
            r == andex@,
            r < SIZE,
    {
        proof {
            use_type_invariant(&andex);
        }
        andex.1
    }
}

impl<M, const SIZE: usize> vstd::std_specs::convert::FromSpecImpl<Andex<M, SIZE>> for usize {
    open spec fn obeys_from_spec() -> bool {
        true
    }

    open spec fn from_spec(andex: Andex<M, SIZE>) -> usize {
        andex@ as usize
    }
}

impl<M, const SIZE: usize> From<&Andex<M, SIZE>> for usize {
    /// The position of the index, as a plain integer.
    fn from(andex: &Andex<M, SIZE>) -> (r: usize)
        ensures
            r == andex@,
            r < SIZE,
    {
        proof {
            use_type_invariant(andex);
        }
        andex.1
    }
}

impl<M, const SIZE: usize> vstd::std_specs::convert::FromSpecImpl<&Andex<M, SIZE>> for usize {
    open spec fn obeys_from_spec() -> bool {
        true
    }

    open spec fn from_spec(andex: &Andex<M, SIZE>) -> usize {
        andex@ as usize
    }
}

impl<M, const SIZE: usize> TryFrom<usize> for Andex<M, SIZE> {
    type Error = Error;

    /// The index at position `value`, which must be below `SIZE`.
    fn try_from(value: usize) -> (r: Result<Self, Error>)
        ensures
            r == Self::spec_try_from(value),
            value < SIZE ==> r is Ok && r->Ok_0@ == value,
            value >= SIZE ==> r == Err::<Self, Error>(Error::OutOfBounds { value, size: SIZE }),
    {
        if value < SIZE {
            let a = Andex(PhantomData, value);
            proof {
                a.lemma_at_view();
            }
            Ok(a)
        } else {
            Err(Error::OutOfBounds { value, size: SIZE })
        }
    }
}

impl<M, const SIZE: usize> vstd::std_specs::convert::TryFromSpecImpl<usize> for Andex<M, SIZE> {
    open spec fn obeys_try_from_spec() -> bool {
        true
    }

    open spec fn try_from_spec(value: usize) -> Result<Self, Error> {
        Self::spec_try_from(value)
    }
}

impl<M, const SIZE: usize> core::str::FromStr for Andex<M, SIZE> {
    type Err = Error;

    /// Reads an index written in decimal notation: digits only, neither sign
    /// nor blank.
    fn from_str(s: &str) -> (r: Result<Self, Error>)
        ensures
            r == Self::parse_spec(s@),
    {
        match decimal::parse_usize(s) {
            Ok(value) => Self::try_from(value),
            Err(failure) => Err(Error::from(failure)),
        }
    }
}

} // verus!
