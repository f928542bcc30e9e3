use vstd::prelude::*;

use crate::iter::IntoIter;
use crate::numeral::Nat;
use crate::numeral::Succ;
use crate::numeral::Zero;
use crate::optional::Optional;
use crate::optional::TNone;
use crate::optional::TSome;

verus! {

/// The empty heterogeneous sequence.
pub struct Nil;

/// A non-empty heterogeneous sequence: one head value and a tail sequence.
/// The element types of the positions are part of the type itself, so a
/// sequence's shape is fixed at construction.
pub struct Cons<Head, Tail>(pub Head, pub Tail);

/// A heterogeneous sequence: either `Nil` or `Cons`.
pub trait HList: Sized {
    /// The number of elements.
    spec fn spec_len(self) -> nat;

    /// Extends the sequence at the front; every old element moves one
    /// position towards the back.
    fn push<T>(self, value: T) -> (r: Cons<T, Self>)
        ensures
            r.0 == value,
            r.1 == self,
    ;
}

impl HList for Nil {
    open spec fn spec_len(self) -> nat {
        0
    }

    fn push<T>(self, value: T) -> (r: Cons<T, Self>) {
        Cons(value, self)
    }
}

impl<Head, Tail: HList> HList for Cons<Head, Tail> {
    open spec fn spec_len(self) -> nat {
        1 + self.1.spec_len()
    }

    fn push<T>(self, value: T) -> (r: Cons<T, Self>) {
        Cons(value, self)
    }
}

impl<Head, Tail: HList> Cons<Head, Tail> {
    /// Detaches the head; the inverse of `push`.
    pub fn pop(self) -> (r: (Head, Tail))
        ensures
            r.0 == self.0,
            r.1 == self.1,
    {
        (self.0, self.1)
    }
}

/// Indexed access: implemented exactly for the pairs of sequence shape and
/// position for which the position is in range, so an out-of-range `get`
/// is rejected when the program is built, not at run time.
pub trait Get<N: Nat>: HList {
    type Output;

    /// The element the position selects.
    spec fn spec_get(self) -> Self::Output;

    fn get(&self) -> (r: &Self::Output)
        ensures
            *r == self.spec_get(),
    ;

    /// Wherever `get` resolves at all, the position is within the length.
    proof fn lemma_in_range(self)
        ensures
            N::spec_value() < self.spec_len(),
    ;
}

impl<Head, Tail: HList> Get<Zero> for Cons<Head, Tail> {
    type Output = Head;

    open spec fn spec_get(self) -> Head {
        self.0
    }

    fn get(&self) -> (r: &Head) {
        &self.0
    }

    proof fn lemma_in_range(self) {
    }
}

impl<N: Nat, Head, Tail: Get<N>> Get<Succ<N>> for Cons<Head, Tail> {
    type Output = <Tail as Get<N>>::Output;

    open spec fn spec_get(self) -> Self::Output {
        self.1.spec_get()
    }

    fn get(&self) -> (r: &Self::Output) {
        self.1.get()
    }

    proof fn lemma_in_range(self) {
        self.1.lemma_in_range();
    }
}

/// Mutable indexed access, rendered as whole-element replacement: the
/// selected element is overwritten and every other element is kept.
pub trait GetMut<N: Nat>: Get<N> {
    /// The sequence with the selected element replaced by `value`.
    spec fn spec_set(self, value: Self::Output) -> Self;

    fn set(&mut self, value: Self::Output)
        ensures
            *final(self) == old(self).spec_set(value),
    ;

    /// Replacement stores the value at the selected position and keeps
    /// the length.
    proof fn lemma_set_get(self, value: Self::Output)
        ensures
            self.spec_set(value).spec_get() == value,
            self.spec_set(value).spec_len() == self.spec_len(),
    ;
}

impl<Head, Tail: HList> GetMut<Zero> for Cons<Head, Tail> {
    open spec fn spec_set(self, value: Head) -> Self {
        Cons(value, self.1)
    }

    fn set(&mut self, value: Head) {
        self.0 = value;
    }

    proof fn lemma_set_get(self, value: Head) {
    }
}

impl<N: Nat, Head, Tail: GetMut<N>> GetMut<Succ<N>> for Cons<Head, Tail> {
    open spec fn spec_set(self, value: Self::Output) -> Self {
        Cons(self.0, self.1.spec_set(value))
    }

    fn set(&mut self, value: Self::Output) {
        self.1.set(value);
    }

    proof fn lemma_set_get(self, value: Self::Output) {
        self.1.lemma_set_get(value);
    }
}

/// Total indexed access: implemented for every pair of sequence shape and
/// position; an out-of-range position is legal input and yields an absent
/// result instead of being rejected.
pub trait GetOptional<N: Nat>: HList {
    type Output;

    /// The element the position selects, if it is in range.
    spec fn spec_get_optional(self) -> Option<Self::Output>;

    fn get_optional(&self) -> (r: Option<&Self::Output>)
        ensures
            match r {
                Some(v) => self.spec_get_optional() == Some(*v),
                None => self.spec_get_optional() is None,
            },
    ;

    /// The result is present exactly when the position is within the
    /// length; on an empty sequence it is absent for every position.
    proof fn lemma_present_iff(self)
        ensures
            self.spec_get_optional() is Some <==> N::spec_value() < self.spec_len(),
    ;
}

impl<N: Nat> GetOptional<N> for Nil {
    type Output = ();

    open spec fn spec_get_optional(self) -> Option<()> {
        None
    }

    fn get_optional(&self) -> (r: Option<&()>) {
        None
    }

    proof fn lemma_present_iff(self) {
    }
}

impl<Head, Tail: HList> GetOptional<Zero> for Cons<Head, Tail> {
    type Output = Head;

    open spec fn spec_get_optional(self) -> Option<Head> {
        Some(self.0)
    }

    fn get_optional(&self) -> (r: Option<&Head>) {
        Some(&self.0)
    }

    proof fn lemma_present_iff(self) {
    }
}

impl<N: Nat, Head, Tail: GetOptional<N>> GetOptional<Succ<N>> for Cons<Head, Tail> {
    type Output = <Tail as GetOptional<N>>::Output;

    open spec fn spec_get_optional(self) -> Option<Self::Output> {
        self.1.spec_get_optional()
    }

    fn get_optional(&self) -> (r: Option<&Self::Output>) {
        self.1.get_optional()
    }

    proof fn lemma_present_iff(self) {
        self.1.lemma_present_iff();
    }
}

/// Total mutable indexed access, rendered as whole-element replacement:
/// implemented for every pair of sequence shape and position. In range
/// the selected element is overwritten and the call reports success; out
/// of range, and on the empty sequence for every position, the sequence
/// is left unchanged and the call reports failure.
pub trait GetOptionalMut<N: Nat>: GetOptional<N> {
    /// The sequence after an attempted replacement.
    spec fn spec_set_optional(self, value: Self::Output) -> Self;

    fn set_optional(&mut self, value: Self::Output) -> (r: bool)
        ensures
            *final(self) == old(self).spec_set_optional(value),
            r <==> N::spec_value() < old(self).spec_len(),
    ;

    /// Replacement changes nothing out of range, and in range it stores
    /// the value at the selected position.
    proof fn lemma_set_optional_get(self, value: Self::Output)
        ensures
            N::spec_value() < self.spec_len() ==> self.spec_set_optional(
                value,
            ).spec_get_optional() == Some(value),
            N::spec_value() >= self.spec_len() ==> self.spec_set_optional(value) == self,
    ;
}

impl<N: Nat> GetOptionalMut<N> for Nil {
    open spec fn spec_set_optional(self, value: ()) -> Nil {
        self
    }

    fn set_optional(&mut self, value: ()) -> (r: bool) {
        false
    }

    proof fn lemma_set_optional_get(self, value: ()) {
    }
}

impl<Head, Tail: HList> GetOptionalMut<Zero> for Cons<Head, Tail> {
    open spec fn spec_set_optional(self, value: Head) -> Self {
        Cons(value, self.1)
    }

    fn set_optional(&mut self, value: Head) -> (r: bool) {
        self.0 = value;
        true
    }

    proof fn lemma_set_optional_get(self, value: Head) {
    }
}

impl<N: Nat, Head, Tail: GetOptionalMut<N>> GetOptionalMut<Succ<N>> for Cons<Head, Tail> {
    open spec fn spec_set_optional(self, value: Self::Output) -> Self {
        Cons(self.0, self.1.spec_set_optional(value))
    }

    fn set_optional(&mut self, value: Self::Output) -> (r: bool) {
        self.1.set_optional(value)
    }

    proof fn lemma_set_optional_get(self, value: Self::Output) {
        self.1.lemma_set_optional_get(value);
    }
}

/// Indexed insertion: splices a value in before the element formerly at
/// the position (at the front when the position is zero). Implemented
/// exactly where the position is at most the length, so inserting past
/// the end is rejected when the program is built. Consumes the sequence
/// and produces one of a new shape.
pub trait Insert<N: Nat, T>: HList {
    type Output: HList;

    /// The sequence with `value` spliced in at the position.
    spec fn spec_insert(self, value: T) -> Self::Output;

    fn insert(self, value: T) -> (r: Self::Output)
        ensures
            r == self.spec_insert(value),
    ;

    /// Wherever `insert` resolves, the position is at most the length,
    /// and insertion grows the sequence by one.
    proof fn lemma_insert_len(self, value: T)
        ensures
            N::spec_value() <= self.spec_len(),
            self.spec_insert(value).spec_len() == self.spec_len() + 1,
    ;
}

impl<L: HList, T> Insert<Zero, T> for L {
    type Output = Cons<T, L>;

    open spec fn spec_insert(self, value: T) -> Cons<T, L> {
        Cons(value, self)
    }

    fn insert(self, value: T) -> (r: Cons<T, L>) {
        Cons(value, self)
    }

    proof fn lemma_insert_len(self, value: T) {
    }
}

impl<N: Nat, Head, Tail: Insert<N, T>, T> Insert<Succ<N>, T> for Cons<Head, Tail> {
    type Output = Cons<Head, <Tail as Insert<N, T>>::Output>;

    open spec fn spec_insert(self, value: T) -> Self::Output {
        Cons(self.0, self.1.spec_insert(value))
    }

    fn insert(self, value: T) -> (r: Self::Output) {
        Cons(self.0, self.1.insert(value))
    }

    proof fn lemma_insert_len(self, value: T) {
        self.1.lemma_insert_len(value);
    }
}

/// Indexed removal: yields the removed element together with the
/// remaining sequence. Implemented exactly where the position is within
/// the length, so removing past the end is rejected when the program is
/// built. Consumes the sequence.
pub trait Remove<N: Nat>: HList {
    type Removed;

    type Output: HList;

    /// The removed element and the remaining sequence.
    spec fn spec_remove(self) -> (Self::Removed, Self::Output);

    fn remove(self) -> (r: (Self::Removed, Self::Output))
        ensures
            r == self.spec_remove(),
    ;

    /// Wherever `remove` resolves, the position is within the length,
    /// and removal shrinks the sequence by one.
    proof fn lemma_remove_len(self)
        ensures
            N::spec_value() < self.spec_len(),
            self.spec_remove().1.spec_len() + 1 == self.spec_len(),
    ;
}

impl<Head, Tail: HList> Remove<Zero> for Cons<Head, Tail> {
    type Removed = Head;

    type Output = Tail;

    open spec fn spec_remove(self) -> (Head, Tail) {
        (self.0, self.1)
    }

    fn remove(self) -> (r: (Head, Tail)) {
        (self.0, self.1)
    }

    proof fn lemma_remove_len(self) {
    }
}

impl<N: Nat, Head, Tail: Remove<N>> Remove<Succ<N>> for Cons<Head, Tail> {
    type Removed = <Tail as Remove<N>>::Removed;

    type Output = Cons<Head, <Tail as Remove<N>>::Output>;

    open spec fn spec_remove(self) -> (Self::Removed, Self::Output) {
        (self.1.spec_remove().0, Cons(self.0, self.1.spec_remove().1))
    }

    fn remove(self) -> (r: (Self::Removed, Self::Output)) {
        let (removed, tail) = self.1.remove();
        (removed, Cons(self.0, tail))
    }

    proof fn lemma_remove_len(self) {
        self.1.lemma_remove_len();
    }
}

/// Removing at the position where a value was just inserted gives back
/// that value and the original sequence, for every sequence and every
/// position at which insertion resolves.
pub trait InsertRemove<N: Nat, T>: Insert<N, T> where
    Self::Output: Remove<N, Removed = T, Output = Self>,
 {
    proof fn lemma_insert_remove_round_trip(self, value: T)
        ensures
            <Self::Output as Remove<N>>::spec_remove(self.spec_insert(value)) == (value, self),
    ;
}

impl<L: HList, T> InsertRemove<Zero, T> for L {
    proof fn lemma_insert_remove_round_trip(self, value: T) {
    }
}

impl<N: Nat, Head, Tail, T> InsertRemove<Succ<N>, T> for Cons<Head, Tail> where
    Tail: InsertRemove<N, T>,
    <Tail as Insert<N, T>>::Output: Remove<N, Removed = T, Output = Tail>,
 {
    proof fn lemma_insert_remove_round_trip(self, value: T) {
        self.1.lemma_insert_remove_round_trip(value);
    }
}

/// Total indexed removal: implemented for every pair of sequence shape
/// and position. In range it yields the removed element in a present
/// capsule and the shortened sequence; out of range, and in particular on
/// the empty sequence for every position, it yields an absent capsule and
/// the sequence unchanged.
pub trait RemoveOptional<N: Nat>: HList {
    type Removed;

    type Output: HList;

    type Capsule: Optional<Self::Removed>;

    /// The capsule and the resulting sequence.
    spec fn spec_remove_optional(self) -> (Self::Capsule, Self::Output);

    fn remove_optional(self) -> (r: (Self::Capsule, Self::Output))
        ensures
            r == self.spec_remove_optional(),
    ;

    /// The capsule is present exactly when the position is within the
    /// length; present removal shrinks the length by one, absent removal
    /// keeps it.
    proof fn lemma_remove_optional_len(self)
        ensures
            self.spec_remove_optional().0.spec_option() is Some <==> N::spec_value()
                < self.spec_len(),
            self.spec_remove_optional().1.spec_len() == if N::spec_value() < self.spec_len() {
                (self.spec_len() - 1) as nat
            } else {
                self.spec_len()
            },
    ;
}

impl<N: Nat> RemoveOptional<N> for Nil {
    type Removed = ();

    type Output = Nil;

    type Capsule = TNone;

    open spec fn spec_remove_optional(self) -> (TNone, Nil) {
        (TNone, Nil)
    }

    fn remove_optional(self) -> (r: (TNone, Nil)) {
        (TNone, Nil)
    }

    proof fn lemma_remove_optional_len(self) {
    }
}

impl<Head, Tail: HList> RemoveOptional<Zero> for Cons<Head, Tail> {
    type Removed = Head;

    type Output = Tail;

    type Capsule = TSome<Head>;

    open spec fn spec_remove_optional(self) -> (TSome<Head>, Tail) {
        (TSome(self.0), self.1)
    }

    fn remove_optional(self) -> (r: (TSome<Head>, Tail)) {
        (TSome(self.0), self.1)
    }

    proof fn lemma_remove_optional_len(self) {
    }
}

impl<N: Nat, Head, Tail: RemoveOptional<N>> RemoveOptional<Succ<N>> for Cons<Head, Tail> {
    type Removed = <Tail as RemoveOptional<N>>::Removed;

    type Output = Cons<Head, <Tail as RemoveOptional<N>>::Output>;

    type Capsule = <Tail as RemoveOptional<N>>::Capsule;

    open spec fn spec_remove_optional(self) -> (Self::Capsule, Self::Output) {
        (self.1.spec_remove_optional().0, Cons(self.0, self.1.spec_remove_optional().1))
    }

    fn remove_optional(self) -> (r: (Self::Capsule, Self::Output)) {
        let (removed, tail) = self.1.remove_optional();
        (removed, Cons(self.0, tail))
    }

    proof fn lemma_remove_optional_len(self) {
        self.1.lemma_remove_optional_len();
    }
}

/// A sequence whose positions all hold the element type `T`. Such a
/// sequence can be handed to an ordinary sequential iteration protocol.
pub trait All<T>: HList {
    /// The elements in construction order: the head is first.
    spec fn spec_elems(self) -> Seq<T>;

    /// There are as many elements as positions.
    proof fn lemma_elems_len(self)
        ensures
            self.spec_elems().len() == self.spec_len(),
    ;

    /// Converts the sequence into a single-pass producer that yields the
    /// elements in construction order.
    fn into_iter(self) -> (r: IntoIter<T>)
        ensures
            r@ == self.spec_elems(),
    ;
}

impl<T> All<T> for Nil {
    open spec fn spec_elems(self) -> Seq<T> {
        Seq::empty()
    }

    proof fn lemma_elems_len(self) {
    }

    fn into_iter(self) -> (r: IntoIter<T>) {
        IntoIter::empty()
    }
}

impl<T, Tail: All<T>> All<T> for Cons<T, Tail> {
    open spec fn spec_elems(self) -> Seq<T> {
        seq![self.0] + self.1.spec_elems()
    }

    proof fn lemma_elems_len(self) {
        self.1.lemma_elems_len();
    }

    fn into_iter(self) -> (r: IntoIter<T>) {
        self.1.into_iter().prepend(self.0)
    }
}

/// Borrows a sequence element-wise: a sequence of the same shape whose
/// elements are references to the original elements, in order.
pub trait AsRefList<'a>: HList {
    type Output: HList;

    /// The borrowed sequence.
    spec fn spec_as_ref_list(&'a self) -> Self::Output;

    fn as_ref_list(&'a self) -> (r: Self::Output)
        ensures
            r == self.spec_as_ref_list(),
    ;
}

impl<'a> AsRefList<'a> for Nil {
    type Output = Nil;

    open spec fn spec_as_ref_list(&'a self) -> Nil {
        Nil
    }

    fn as_ref_list(&'a self) -> (r: Nil) {
        Nil
    }
}

impl<'a, Head: 'a, Tail: AsRefList<'a>> AsRefList<'a> for Cons<Head, Tail> {
    type Output = Cons<&'a Head, <Tail as AsRefList<'a>>::Output>;

    open spec fn spec_as_ref_list(&'a self) -> Self::Output {
        Cons(&self.0, self.1.spec_as_ref_list())
    }

    fn as_ref_list(&'a self) -> (r: Self::Output) {
        Cons(&self.0, self.1.as_ref_list())
    }
}

/// Borrows a sequence element-wise and mutably: a sequence of the same
/// shape whose elements are mutable references to the original elements,
/// in order. Specifications cannot speak of mutable borrows held as
/// values, so this mirror carries no contract of its own.
pub trait AsMutList<'a>: HList {
    type Output: HList;

    fn as_mut_list(&'a mut self) -> Self::Output;
}

impl<'a> AsMutList<'a> for Nil {
    type Output = Nil;

    fn as_mut_list(&'a mut self) -> Self::Output {
        Nil
    }
}

impl<'a, Head: 'a, Tail: AsMutList<'a>> AsMutList<'a> for Cons<Head, Tail> {
    type Output = Cons<&'a mut Head, <Tail as AsMutList<'a>>::Output>;

    fn as_mut_list(&'a mut self) -> Self::Output {
        Cons(&mut self.0, self.1.as_mut_list())
    }
}

} // verus!
