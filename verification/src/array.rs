//! The array type that only an index of its own size and marker can address.

use crate::index::Andex;
use core::marker::PhantomData;
use vstd::prelude::*;
use vstd::std_specs::iter::IteratorSpec;

verus! {

/// An array of exactly `SIZE` items that is indexed by the index type `A`
/// and by nothing else.
///
/// Its view is the sequence of its items, in storage order.
#[derive(Debug)]
pub struct AndexableArray<A, Item, const SIZE: usize>(PhantomData<A>, [Item; SIZE]);

impl<A, Item, const SIZE: usize> View for AndexableArray<A, Item, SIZE> {
    type V = Seq<Item>;

    /// The items, in storage order.
    closed spec fn view(&self) -> Seq<Item> {
        self.1@
    }
}

/// `std`'s conversion of a vector into an array, `<[T; N]>::try_from(Vec<T>)`.
///
/// As `std` documents it: a vector of exactly `N` items gives the array of
/// those items, in the same order; any other vector comes back unchanged as
/// the error.
#[verifier::external_body]
fn vec_into_array<T, const N: usize>(v: Vec<T>) -> (r: Result<[T; N], Vec<T>>)
    ensures
        v@.len() == N ==> r is Ok && r->Ok_0@ == v@,
        v@.len() != N ==> r is Err && r->Err_0 == v,
{
    <[T; N]>::try_from(v)
}

/// `std`'s conversion of an array into a vector, `Vec::from([T; N])`.
///
/// As `std` documents it: the vector holds the items of the array, in the
/// same order.
#[verifier::external_body]
fn array_into_vec<T, const N: usize>(a: [T; N]) -> (r: Vec<T>)
    ensures
        r@ == a@,
{
    Vec::from(a)
}

/// The slots of an array that are still to be handed out for writing, in
/// storage order: what going through an array by `&mut` gives.
///
/// It holds the part of the array that is left. Each step hands out the
/// first slot of that part and keeps the others; what is written through a
/// slot that was handed out is what the array holds there afterwards.
///
/// The references to come cannot be told beforehand as one sequence, so
/// `remaining` says nothing of them: `next` itself states what it gives.
#[derive(Debug)]
pub struct IterMut<'a, Item>(Option<&'a mut [Item]>);


impl<A, Item, const SIZE: usize> AndexableArray<A, Item, SIZE> {
    /// The array that holds the items of `array`.
    pub closed spec fn of(array: [Item; SIZE]) -> Self {
        AndexableArray(PhantomData, array)
    }

    /// The plain array inside.
    pub closed spec fn items(self) -> [Item; SIZE] {
        self.1
    }

    /// There are always exactly `SIZE` items.
    pub broadcast proof fn lemma_len(self)
        ensures
            #[trigger] self@.len() == SIZE,
    {
    }

    /// Wrapping an array keeps its items, and so does unwrapping.
    pub broadcast proof fn lemma_of_items(array: [Item; SIZE])
        ensures
            (#[trigger] Self::of(array))@ == array@,
            Self::of(array).items() == array,
    {
    }

    /// The plain array inside has the items of the view.
    pub broadcast proof fn lemma_items_view(self)
        ensures
            (#[trigger] self.items())@ == self@,
            Self::of(self.items()) == self,
    {
    }

    /// What was collected is what iteration hands out: if the array was made
    /// of `items`, as `from_iter` makes it, and `handed` are the references
    /// that `iter` gives, then there are `SIZE` of them and they designate
    /// the very `items`, in the same order.
    pub proof fn lemma_collect_then_iterate(self, items: Seq<Item>, handed: Seq<&Item>)
        requires
            self@ == items,
            handed == self@.as_ref(),
        ensures
            items.len() == SIZE,
            handed.len() == SIZE,
            handed.unref() == items,
            forall|k: int| 0 <= k < SIZE ==> *(#[trigger] handed[k]) == items[k],
    {
        assert(handed.unref() =~= items);
    }

    /// Goes through the items by reference, in storage order.
    pub fn iter(&self) -> (r: core::slice::Iter<'_, Item>)
        ensures
            r.remaining() == self@.as_ref(),
            r.remaining().unref() == self@,
            r.remaining().len() == SIZE,
            r.decrease() is Some,
            r.initial_value_relation(&r),
    {
        let r = self.1.iter();
        assert(self@.as_ref().unref() =~= self@);
        r
    }

    /// Collects exactly `SIZE` items into an array, in the order in which
    /// `iter` hands them out.
    ///
    /// An iterator that gives fewer or more items is refused when the caller
    /// is verified; reached from unverified code, it stops the program: the
    /// items are never cut short nor filled up.
    pub fn from_iter<I: Iterator<Item = Item>>(iter: I) -> (r: Self)
        requires
            iter.obeys_prophetic_iter_laws(),
            iter.remaining().len() == SIZE,
        ensures
            r@ == iter.remaining(),
    {
        let mut iter = iter;
        let ghost all = iter.remaining();
        let mut items: Vec<Item> = Vec::new();
        let mut n: usize = 0;
        while n < SIZE
            invariant
                n <= SIZE,
                iter.obeys_prophetic_iter_laws(),
                all.len() == SIZE,
                items@.len() == n,
                items@ + iter.remaining() == all,
            decreases SIZE - n,
        {
            let ghost before = iter.remaining();
            match iter.next() {
                Some(item) => {
                    items.push(item);
                    assert(items@ + iter.remaining() =~= items@.drop_last() + before);
                },
                None => {
                    return vstd::pervasive::unreached();
                },
            }
            n = n + 1;
        }
        if iter.next().is_some() {
            return vstd::pervasive::unreached();
        }
        assert(items@ =~= all);
        match vec_into_array::<Item, SIZE>(items) {
            Ok(array) => AndexableArray(PhantomData, array),
            Err(_) => vstd::pervasive::unreached(),
        }
    }

    /// Collects copies of exactly `SIZE` items into an array, in the order
    /// in which `iter` hands out the references to them.
    ///
    /// As with `from_iter`, any other number of items is refused.
    pub fn from_iter_ref<'a, I: Iterator<Item = &'a Item>>(iter: I) -> (r: Self) where
        Item: 'a + Copy,

        requires
            iter.obeys_prophetic_iter_laws(),
            iter.remaining().len() == SIZE,
        ensures
            r@ == iter.remaining().unref(),
    {
        let mut iter = iter;
        let ghost all = iter.remaining();
        let mut items: Vec<Item> = Vec::new();
        let mut n: usize = 0;
        while n < SIZE
            invariant
                n <= SIZE,
                iter.obeys_prophetic_iter_laws(),
                all.len() == SIZE,
                items@.len() == n,
                items@ + iter.remaining().unref() == all.unref(),
            decreases SIZE - n,
        {
            let ghost before = iter.remaining();
            match iter.next() {
                Some(item) => {
                    items.push(*item);
                    assert(items@ + iter.remaining().unref() =~= items@.drop_last()
                        + before.unref());
                },
                None => {
                    return vstd::pervasive::unreached();
                },
            }
            n = n + 1;
        }
        if iter.next().is_some() {
            return vstd::pervasive::unreached();
        }
        assert(items@ =~= all.unref());
        match vec_into_array::<Item, SIZE>(items) {
            Ok(array) => AndexableArray(PhantomData, array),
            Err(_) => vstd::pervasive::unreached(),
        }
    }
}

impl<A, Item, const SIZE: usize> AndexableArray<Andex<A, SIZE>, Item, SIZE> {
    /// The item at the position of `index`; in specifications, `array[index]`.
    pub open spec fn spec_index(self, index: Andex<A, SIZE>) -> Item {
        self@[index@ as int]
    }
}

impl<A, Item: Copy, const SIZE: usize> Clone for AndexableArray<A, Item, SIZE> {
    fn clone(&self) -> (r: Self)
        ensures
            r == *self,
    {
        AndexableArray(PhantomData, self.1)
    }
}

impl<A, Item: Copy, const SIZE: usize> Copy for AndexableArray<A, Item, SIZE> {

}

impl<A, Item: Default + Copy, const SIZE: usize> Default for AndexableArray<A, Item, SIZE> {
    /// The array whose every slot holds the default item.
    fn default() -> (r: Self)
        ensures
            exists|d: Item|
                call_ensures(Item::default, (), d) && r@ == Seq::new(SIZE as nat, |i: int| d),
    {
        let d = Item::default();
        let r = AndexableArray(PhantomData, [d;SIZE]);
        assert(r@ =~= Seq::new(SIZE as nat, |i: int| d));
        r
    }
}

impl<A, Item, const SIZE: usize> std::ops::Index<Andex<A, SIZE>> for AndexableArray<Andex<A, SIZE>, Item, SIZE> {
    type Output = Item;

    /// The item at the position of `index`. Every index is in range.
    fn index(&self, index: Andex<A, SIZE>) -> (r: &Item)
        ensures
            index@ < SIZE,
            *r == self@[index@ as int],
    {
        proof {
            use_type_invariant(&index);
        }
        index.index_arr(&self.1)
    }
}

impl<A, Item, const SIZE: usize> vstd::std_specs::core::IndexSpecImpl<Andex<A, SIZE>> for AndexableArray<Andex<A, SIZE>, Item, SIZE> {
    open spec fn index_req(&self, index: &Andex<A, SIZE>) -> bool {
        true
    }
}

impl<A, Item, const SIZE: usize> std::ops::IndexMut<Andex<A, SIZE>> for AndexableArray<Andex<A, SIZE>, Item, SIZE> {
    /// The item at the position of `index`, for writing: the array changes
    /// in that slot and in no other.
    fn index_mut(&mut self, index: Andex<A, SIZE>) -> (r: &mut Item)
        ensures
            index@ < SIZE,
            *r == old(self)@[index@ as int],
            final(self)@ == old(self)@.update(index@ as int, *final(r)),
    {
        proof {
            use_type_invariant(&index);
        }
        index.index_arr_mut(&mut self.1)
    }
}

impl<A, Item, const SIZE: usize> std::ops::Index<&Andex<A, SIZE>> for AndexableArray<Andex<A, SIZE>, Item, SIZE> {
    type Output = Item;

    /// The item at the position of `index`. Every index is in range.
    fn index(&self, index: &Andex<A, SIZE>) -> (r: &Item)
        ensures
            index@ < SIZE,
            *r == self@[index@ as int],
    {
        proof {
            use_type_invariant(index);
        }
        index.index_arr(&self.1)
    }
}

impl<A, Item, const SIZE: usize> vstd::std_specs::core::IndexSpecImpl<&Andex<A, SIZE>> for AndexableArray<Andex<A, SIZE>, Item, SIZE> {
    open spec fn index_req(&self, index: &&Andex<A, SIZE>) -> bool {
        true
    }
}

impl<A, Item, const SIZE: usize> std::ops::IndexMut<&Andex<A, SIZE>> for AndexableArray<Andex<A, SIZE>, Item, SIZE> {
    /// The item at the position of `index`, for writing: the array changes
    /// in that slot and in no other.
    fn index_mut(&mut self, index: &Andex<A, SIZE>) -> (r: &mut Item)
        ensures
            index@ < SIZE,
            *r == old(self)@[index@ as int],
            final(self)@ == old(self)@.update(index@ as int, *final(r)),
    {
        proof {
            use_type_invariant(index);
        }
        index.index_arr_mut(&mut self.1)
    }
}

impl<A, Item, const SIZE: usize> AsRef<[Item; SIZE]> for AndexableArray<A, Item, SIZE> {
    /// The plain array inside.
    fn as_ref(&self) -> (r: &[Item; SIZE])
        ensures
            *r == self.items(),
            r@ == self@,
    {
        &self.1
    }
}

impl<A, Item, const SIZE: usize> AsMut<[Item; SIZE]> for AndexableArray<A, Item, SIZE> {
    /// The plain array inside, for writing: what is written to it is what
    /// the array holds afterwards.
    fn as_mut(&mut self) -> (r: &mut [Item; SIZE])
        ensures
            r@ == old(self)@,
            final(self)@ == final(r)@,
    {
        &mut self.1
    }
}

impl<A, Item, const SIZE: usize> From<[Item; SIZE]> for AndexableArray<A, Item, SIZE> {
    /// Wraps a plain array; the items stay as they are.
    fn from(array: [Item; SIZE]) -> (r: Self)
        ensures
            r == Self::of(array),
            r@ == array@,
    {
        AndexableArray(PhantomData, array)
    }
}

impl<A, Item, const SIZE: usize> vstd::std_specs::convert::FromSpecImpl<[Item; SIZE]> for AndexableArray<A, Item, SIZE> {
    open spec fn obeys_from_spec() -> bool {
        true
    }

    open spec fn from_spec(array: [Item; SIZE]) -> Self {
        Self::of(array)
    }
}

impl<A, Item: Copy, const SIZE: usize> From<&[Item; SIZE]> for AndexableArray<A, Item, SIZE> {
    /// Wraps a copy of a plain array.
    fn from(array: &[Item; SIZE]) -> (r: Self)
        ensures
            r == Self::of(*array),
            r@ == array@,
    {
        AndexableArray(PhantomData, *array)
    }
}

impl<A, Item: Copy, const SIZE: usize> vstd::std_specs::convert::FromSpecImpl<&[Item; SIZE]> for AndexableArray<A, Item, SIZE> {
    open spec fn obeys_from_spec() -> bool {
        true
    }

    open spec fn from_spec(array: &[Item; SIZE]) -> Self {
        Self::of(*array)
    }
}

impl<A, Item, const SIZE: usize> From<AndexableArray<A, Item, SIZE>> for [Item; SIZE] {
    /// Gives back the plain array inside.
    fn from(andexable_array: AndexableArray<A, Item, SIZE>) -> (r: [Item; SIZE])
        ensures
            r == andexable_array.items(),
            r@ == andexable_array@,
    {
        andexable_array.1
    }
}

impl<A, Item, const SIZE: usize> vstd::std_specs::convert::FromSpecImpl<AndexableArray<A, Item, SIZE>> for [Item; SIZE] {
    open spec fn obeys_from_spec() -> bool {
        true
    }

    open spec fn from_spec(andexable_array: AndexableArray<A, Item, SIZE>) -> [Item; SIZE] {
        andexable_array.items()
    }
}

impl<A, Item: Copy, const SIZE: usize> From<&AndexableArray<A, Item, SIZE>> for [Item; SIZE] {
    /// Gives a copy of the plain array inside.
    fn from(andexable_array: &AndexableArray<A, Item, SIZE>) -> (r: [Item; SIZE])
        ensures
            r == andexable_array.items(),
            r@ == andexable_array@,
    {
        andexable_array.1
    }
}

impl<A, Item: Copy, const SIZE: usize> vstd::std_specs::convert::FromSpecImpl<&AndexableArray<A, Item, SIZE>> for [Item; SIZE] {
    open spec fn obeys_from_spec() -> bool {
        true
    }

    open spec fn from_spec(andexable_array: &AndexableArray<A, Item, SIZE>) -> [Item; SIZE] {
        andexable_array.items()
    }
}

impl<'a, A, Item, const SIZE: usize> IntoIterator for &'a AndexableArray<A, Item, SIZE> {
    type Item = &'a Item;

    type IntoIter = core::slice::Iter<'a, Item>;

    /// Goes through the items by reference, in storage order.
    fn into_iter(self) -> (r: core::slice::Iter<'a, Item>)
        ensures
            r.remaining() == self@.as_ref(),
            r.remaining().unref() == self@,
            r.decrease() is Some,
            r.initial_value_relation(&r),
    {
        let r = self.1.iter();
        assert(self@.as_ref().unref() =~= self@);
        r
    }
}

impl<'a, A, Item, const SIZE: usize> IntoIterator for &'a mut AndexableArray<A, Item, SIZE> {
    type Item = &'a mut Item;

    type IntoIter = IterMut<'a, Item>;

    /// Goes through the items for writing.
    fn into_iter(self) -> (r: IterMut<'a, Item>)
        ensures
            r.rest() == old(self)@,
            r.slots() matches Some(s) && final(self)@ == final(s)@,
    {
        IterMut(Some(&mut self.1))
    }
}

impl<A, Item, const SIZE: usize> IntoIterator for AndexableArray<A, Item, SIZE> {
    type Item = Item;

    type IntoIter = std::vec::IntoIter<Item>;

    /// Uses the array up and hands out its items, in storage order.
    fn into_iter(self) -> (r: std::vec::IntoIter<Item>)
        ensures
            r.remaining() == self@,
            r.decrease() is Some,
            r.initial_value_relation(&r),
    {
        array_into_vec(self.1).into_iter()
    }
}

impl<'a, Item> IterMut<'a, Item> {
    /// The part of the array that is left, if it has not been given up yet.
    pub closed spec fn slots(&self) -> Option<&'a mut [Item]> {
        self.0
    }

    /// The items in the slots that are still to be handed out, as they are
    /// now, in storage order.
    pub open spec fn rest(&self) -> Seq<Item> {
        match self.slots() {
            Some(s) => s@,
            None => Seq::empty(),
        }
    }
}

impl<'a, Item> Iterator for IterMut<'a, Item> {
    type Item = &'a mut Item;

    /// Hands out the first slot that is left, for writing, and keeps the
    /// others; gives `None`, again and again, once no slot is left.
    ///
    /// The slot holds the first item of `rest`. What the part that was left
    /// holds in the end is what is written through that slot, followed by
    /// what the part that is kept holds in the end.
    fn next(&mut self) -> (r: Option<&'a mut Item>)
        ensures
            old(self).rest().len() > 0 ==> r is Some && *r->Some_0 == old(self).rest()[0]
                && final(self).rest() == old(self).rest().drop_first(),
            old(self).rest().len() == 0 ==> r is None && final(self).rest().len() == 0,
            old(self).slots() matches Some(s) ==> (match r {
                Some(e) => final(self).slots() matches Some(t) && final(s)@ == seq![*final(e)]
                    + final(t)@,
                None => final(s)@ == Seq::<Item>::empty(),
            }),
            old(self).slots() is None ==> final(self).slots() is None,
    {
        match self.0.take() {
            None => None,
            Some(slice) => {
                if slice.len() == 0 {
                    None
                } else {
                    let (head, tail) = slice.split_at_mut(1);
                    self.0 = Some(tail);
                    head.first_mut()
                }
            },
        }
    }
}

impl<'a, Item> vstd::std_specs::iter::IteratorSpecImpl for IterMut<'a, Item> {
    open spec fn obeys_prophetic_iter_laws(&self) -> bool {
        false
    }

    open spec fn remaining(&self) -> Seq<Self::Item> {
        Seq::empty()
    }

    open spec fn will_return_none(&self) -> bool {
        true
    }

    open spec fn decrease(&self) -> Option<nat> {
        Some(self.rest().len())
    }

    open spec fn initial_value_relation(&self, init: &Self) -> bool {
        true
    }

    open spec fn peek(&self, index: int) -> Option<Self::Item> {
        None
    }
}

} // verus!
