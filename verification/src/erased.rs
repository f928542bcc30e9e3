use vstd::prelude::*;

use crate::hlist::All;
use crate::hlist::Cons;
use crate::hlist::HList;
use crate::hlist::Nil;

verus! {

/// A runtime-typed handle around one element: the variant records the
/// element's original type and owns its payload. Handles make a
/// heterogeneous sequence uniform, so it can be iterated; a downcast
/// checks the recorded type and gives the handle back on a mismatch.
#[derive(Debug)]
pub enum DynValue {
    I32(i32),
    I64(i64),
    U64(u64),
    Bool(bool),
    Char(char),
    Text(String),
    Unit,
}

impl DynValue {
    /// Downcast to `i32`: yields the payload when the handle holds one,
    /// and the handle itself, unconsumed, when it does not.
    pub fn downcast_i32(self) -> (r: Result<i32, DynValue>)
        ensures
            r == (match self {
                DynValue::I32(v) => Ok::<i32, DynValue>(v),
                _ => Err::<i32, DynValue>(self),
            }),
    {
        match self {
            DynValue::I32(v) => Ok(v),
            _ => Err(self),
        }
    }

    /// Downcast to `i64`; mismatches give the handle back.
    pub fn downcast_i64(self) -> (r: Result<i64, DynValue>)
        ensures
            r == (match self {
                DynValue::I64(v) => Ok::<i64, DynValue>(v),
                _ => Err::<i64, DynValue>(self),
            }),
    {
        match self {
            DynValue::I64(v) => Ok(v),
            _ => Err(self),
        }
    }

    /// Downcast to `u64`; mismatches give the handle back.
    pub fn downcast_u64(self) -> (r: Result<u64, DynValue>)
        ensures
            r == (match self {
                DynValue::U64(v) => Ok::<u64, DynValue>(v),
                _ => Err::<u64, DynValue>(self),
            }),
    {
        match self {
            DynValue::U64(v) => Ok(v),
            _ => Err(self),
        }
    }

    /// Downcast to `bool`; mismatches give the handle back.
    pub fn downcast_bool(self) -> (r: Result<bool, DynValue>)
        ensures
            r == (match self {
                DynValue::Bool(v) => Ok::<bool, DynValue>(v),
                _ => Err::<bool, DynValue>(self),
            }),
    {
        match self {
            DynValue::Bool(v) => Ok(v),
            _ => Err(self),
        }
    }

    /// Downcast to `char`; mismatches give the handle back.
    pub fn downcast_char(self) -> (r: Result<char, DynValue>)
        ensures
            r == (match self {
                DynValue::Char(v) => Ok::<char, DynValue>(v),
                _ => Err::<char, DynValue>(self),
            }),
    {
        match self {
            DynValue::Char(v) => Ok(v),
            _ => Err(self),
        }
    }

    /// Downcast to an owned string; mismatches give the handle back.
    pub fn downcast_text(self) -> (r: Result<String, DynValue>)
        ensures
            r == (match self {
                DynValue::Text(v) => Ok::<String, DynValue>(v),
                _ => Err::<String, DynValue>(self),
            }),
    {
        match self {
            DynValue::Text(v) => Ok(v),
            _ => Err(self),
        }
    }
}

/// An element type the erasure bridge can wrap into a handle.
pub trait Erase: Sized {
    /// The handle that stands for this value.
    spec fn spec_erase(self) -> DynValue;

    fn erase(self) -> (r: DynValue)
        ensures
            r == self.spec_erase(),
    ;
}

impl Erase for i32 {
    open spec fn spec_erase(self) -> DynValue {
        DynValue::I32(self)
    }

    fn erase(self) -> (r: DynValue) {
        DynValue::I32(self)
    }
}

impl Erase for i64 {
    open spec fn spec_erase(self) -> DynValue {
        DynValue::I64(self)
    }

    fn erase(self) -> (r: DynValue) {
        DynValue::I64(self)
    }
}

impl Erase for u64 {
    open spec fn spec_erase(self) -> DynValue {
        DynValue::U64(self)
    }

    fn erase(self) -> (r: DynValue) {
        DynValue::U64(self)
    }
}

impl Erase for bool {
    open spec fn spec_erase(self) -> DynValue {
        DynValue::Bool(self)
    }

    fn erase(self) -> (r: DynValue) {
        DynValue::Bool(self)
    }
}

impl Erase for char {
    open spec fn spec_erase(self) -> DynValue {
        DynValue::Char(self)
    }

    fn erase(self) -> (r: DynValue) {
        DynValue::Char(self)
    }
}

impl Erase for String {
    open spec fn spec_erase(self) -> DynValue {
        DynValue::Text(self)
    }

    fn erase(self) -> (r: DynValue) {
        DynValue::Text(self)
    }
}

impl Erase for () {
    open spec fn spec_erase(self) -> DynValue {
        DynValue::Unit
    }

    fn erase(self) -> (r: DynValue) {
        DynValue::Unit
    }
}

/// The erasure bridge: converts every element into a handle, producing a
/// sequence of the same shape whose positions all hold `DynValue`.
pub trait ToDynBox: HList {
    type Output: All<DynValue>;

    /// The erased elements, in construction order.
    spec fn spec_dyn_elems(self) -> Seq<DynValue>;

    fn to_dyn_box(self) -> (r: Self::Output)
        ensures
            r.spec_elems() == self.spec_dyn_elems(),
    ;

    /// Erasure keeps the shape: one handle per position.
    proof fn lemma_dyn_len(self)
        ensures
            self.spec_dyn_elems().len() == self.spec_len(),
    ;
}

impl ToDynBox for Nil {
    type Output = Nil;

    open spec fn spec_dyn_elems(self) -> Seq<DynValue> {
        Seq::empty()
    }

    fn to_dyn_box(self) -> (r: Nil) {
        proof {
            assert(Nil.spec_elems() =~= self.spec_dyn_elems());
        }
        Nil
    }

    proof fn lemma_dyn_len(self) {
    }
}

impl<Head: Erase, Tail: ToDynBox> ToDynBox for Cons<Head, Tail> {
    type Output = Cons<DynValue, <Tail as ToDynBox>::Output>;

    open spec fn spec_dyn_elems(self) -> Seq<DynValue> {
        seq![self.0.spec_erase()] + self.1.spec_dyn_elems()
    }

    fn to_dyn_box(self) -> (r: Self::Output) {
        Cons(self.0.erase(), self.1.to_dyn_box())
    }

    proof fn lemma_dyn_len(self) {
        self.1.lemma_dyn_len();
    }
}

/// A runtime-typed borrow of one element: the variant records the
/// element's type and holds a shared reference to it. The borrowing
/// counterpart of `DynValue`, for walking a sequence without consuming
/// it.
#[derive(Debug, Clone, Copy)]
pub enum DynRef<'a> {
    I32(&'a i32),
    I64(&'a i64),
    U64(&'a u64),
    Bool(&'a bool),
    Char(&'a char),
    Text(&'a String),
    Unit(&'a ()),
}

impl<'a> DynRef<'a> {
    /// Downcast to a borrowed `i32`; mismatches give the handle back.
    pub fn downcast_i32(self) -> (r: Result<&'a i32, DynRef<'a>>)
        ensures
            r == (match self {
                DynRef::I32(v) => Ok::<&'a i32, DynRef<'a>>(v),
                _ => Err::<&'a i32, DynRef<'a>>(self),
            }),
    {
        match self {
            DynRef::I32(v) => Ok(v),
            _ => Err(self),
        }
    }

    /// Downcast to a borrowed `bool`; mismatches give the handle back.
    pub fn downcast_bool(self) -> (r: Result<&'a bool, DynRef<'a>>)
        ensures
            r == (match self {
                DynRef::Bool(v) => Ok::<&'a bool, DynRef<'a>>(v),
                _ => Err::<&'a bool, DynRef<'a>>(self),
            }),
    {
        match self {
            DynRef::Bool(v) => Ok(v),
            _ => Err(self),
        }
    }

    /// Downcast to a borrowed `char`; mismatches give the handle back.
    pub fn downcast_char(self) -> (r: Result<&'a char, DynRef<'a>>)
        ensures
            r == (match self {
                DynRef::Char(v) => Ok::<&'a char, DynRef<'a>>(v),
                _ => Err::<&'a char, DynRef<'a>>(self),
            }),
    {
        match self {
            DynRef::Char(v) => Ok(v),
            _ => Err(self),
        }
    }

    /// Downcast to a borrowed string; mismatches give the handle back.
    pub fn downcast_text(self) -> (r: Result<&'a String, DynRef<'a>>)
        ensures
            r == (match self {
                DynRef::Text(v) => Ok::<&'a String, DynRef<'a>>(v),
                _ => Err::<&'a String, DynRef<'a>>(self),
            }),
    {
        match self {
            DynRef::Text(v) => Ok(v),
            _ => Err(self),
        }
    }
}

/// An element type the erasure bridge can borrow into a handle.
pub trait EraseRef<'a>: Sized {
    /// The handle that borrows this value.
    spec fn spec_erase_ref(&'a self) -> DynRef<'a>;

    fn erase_ref(&'a self) -> (r: DynRef<'a>)
        ensures
            r == self.spec_erase_ref(),
    ;
}

impl<'a> EraseRef<'a> for i32 {
    open spec fn spec_erase_ref(&'a self) -> DynRef<'a> {
        DynRef::I32(self)
    }

    fn erase_ref(&'a self) -> (r: DynRef<'a>) {
        DynRef::I32(self)
    }
}

impl<'a> EraseRef<'a> for i64 {
    open spec fn spec_erase_ref(&'a self) -> DynRef<'a> {
        DynRef::I64(self)
    }

    fn erase_ref(&'a self) -> (r: DynRef<'a>) {
        DynRef::I64(self)
    }
}

impl<'a> EraseRef<'a> for u64 {
    open spec fn spec_erase_ref(&'a self) -> DynRef<'a> {
        DynRef::U64(self)
    }

    fn erase_ref(&'a self) -> (r: DynRef<'a>) {
        DynRef::U64(self)
    }
}

impl<'a> EraseRef<'a> for bool {
    open spec fn spec_erase_ref(&'a self) -> DynRef<'a> {
        DynRef::Bool(self)
    }

    fn erase_ref(&'a self) -> (r: DynRef<'a>) {
        DynRef::Bool(self)
    }
}

impl<'a> EraseRef<'a> for char {
    open spec fn spec_erase_ref(&'a self) -> DynRef<'a> {
        DynRef::Char(self)
    }

    fn erase_ref(&'a self) -> (r: DynRef<'a>) {
        DynRef::Char(self)
    }
}

impl<'a> EraseRef<'a> for String {
    open spec fn spec_erase_ref(&'a self) -> DynRef<'a> {
        DynRef::Text(self)
    }

    fn erase_ref(&'a self) -> (r: DynRef<'a>) {
        DynRef::Text(self)
    }
}

impl<'a> EraseRef<'a> for () {
    open spec fn spec_erase_ref(&'a self) -> DynRef<'a> {
        DynRef::Unit(self)
    }

    fn erase_ref(&'a self) -> (r: DynRef<'a>) {
        DynRef::Unit(self)
    }
}

/// The borrowing erasure bridge: wraps a reference to every element into
/// a handle, producing a sequence of the same shape whose positions all
/// hold `DynRef`, without consuming the original.
pub trait AsDynRef<'a>: HList {
    type Output: All<DynRef<'a>>;

    /// The borrowed handles, in construction order.
    spec fn spec_dyn_refs(&'a self) -> Seq<DynRef<'a>>;

    fn as_dyn_ref(&'a self) -> (r: Self::Output)
        ensures
            r.spec_elems() == self.spec_dyn_refs(),
    ;
}

impl<'a> AsDynRef<'a> for Nil {
    type Output = Nil;

    open spec fn spec_dyn_refs(&'a self) -> Seq<DynRef<'a>> {
        Seq::empty()
    }

    fn as_dyn_ref(&'a self) -> (r: Nil) {
        proof {
            assert(Nil.spec_elems() =~= self.spec_dyn_refs());
        }
        Nil
    }
}

impl<'a, Head: EraseRef<'a>, Tail: AsDynRef<'a>> AsDynRef<'a> for Cons<Head, Tail> {
    type Output = Cons<DynRef<'a>, <Tail as AsDynRef<'a>>::Output>;

    open spec fn spec_dyn_refs(&'a self) -> Seq<DynRef<'a>> {
        seq![self.0.spec_erase_ref()] + self.1.spec_dyn_refs()
    }

    fn as_dyn_ref(&'a self) -> (r: Self::Output) {
        Cons(self.0.erase_ref(), self.1.as_dyn_ref())
    }
}

/// A runtime-typed mutable borrow of one element. Specifications cannot
/// speak of mutable borrows held as values, so the handle and its bridge
/// carry no contracts of their own; the downcasts still check the
/// recorded type and give the handle back on a mismatch.
#[derive(Debug)]
pub enum DynMut<'a> {
    I32(&'a mut i32),
    I64(&'a mut i64),
    U64(&'a mut u64),
    Bool(&'a mut bool),
    Char(&'a mut char),
    Text(&'a mut String),
    Unit(&'a mut ()),
}

impl<'a> DynMut<'a> {
    /// Downcast to a mutably borrowed `i32`; mismatches give the handle
    /// back.
    pub fn downcast_i32(self) -> Result<&'a mut i32, DynMut<'a>> {
        match self {
            DynMut::I32(v) => Ok(v),
            _ => Err(self),
        }
    }

    /// Downcast to a mutably borrowed `bool`; mismatches give the handle
    /// back.
    pub fn downcast_bool(self) -> Result<&'a mut bool, DynMut<'a>> {
        match self {
            DynMut::Bool(v) => Ok(v),
            _ => Err(self),
        }
    }

    /// Downcast to a mutably borrowed `char`; mismatches give the handle
    /// back.
    pub fn downcast_char(self) -> Result<&'a mut char, DynMut<'a>> {
        match self {
            DynMut::Char(v) => Ok(v),
            _ => Err(self),
        }
    }

    /// Downcast to a mutably borrowed string; mismatches give the handle
    /// back.
    pub fn downcast_text(self) -> Result<&'a mut String, DynMut<'a>> {
        match self {
            DynMut::Text(v) => Ok(v),
            _ => Err(self),
        }
    }
}

/// An element type the erasure bridge can borrow mutably into a handle.
pub trait EraseMut<'a>: Sized {
    fn erase_mut(&'a mut self) -> DynMut<'a>;
}

impl<'a> EraseMut<'a> for i32 {
    fn erase_mut(&'a mut self) -> DynMut<'a> {
        DynMut::I32(self)
    }
}

impl<'a> EraseMut<'a> for i64 {
    fn erase_mut(&'a mut self) -> DynMut<'a> {
        DynMut::I64(self)
    }
}

impl<'a> EraseMut<'a> for u64 {
    fn erase_mut(&'a mut self) -> DynMut<'a> {
        DynMut::U64(self)
    }
}

impl<'a> EraseMut<'a> for bool {
    fn erase_mut(&'a mut self) -> DynMut<'a> {
        DynMut::Bool(self)
    }
}

impl<'a> EraseMut<'a> for char {
    fn erase_mut(&'a mut self) -> DynMut<'a> {
        DynMut::Char(self)
    }
}

impl<'a> EraseMut<'a> for String {
    fn erase_mut(&'a mut self) -> DynMut<'a> {
        DynMut::Text(self)
    }
}

impl<'a> EraseMut<'a> for () {
    fn erase_mut(&'a mut self) -> DynMut<'a> {
        DynMut::Unit(self)
    }
}

/// The mutably borrowing erasure bridge: wraps a mutable reference to
/// every element into a handle, in order, without consuming the
/// original.
pub trait AsDynMut<'a>: HList {
    type Output: All<DynMut<'a>>;

    fn as_dyn_mut(&'a mut self) -> Self::Output;
}

impl<'a> AsDynMut<'a> for Nil {
    type Output = Nil;

    fn as_dyn_mut(&'a mut self) -> Nil {
        Nil
    }
}

impl<'a, Head: EraseMut<'a>, Tail: AsDynMut<'a>> AsDynMut<'a> for Cons<Head, Tail> {
    type Output = Cons<DynMut<'a>, <Tail as AsDynMut<'a>>::Output>;

    fn as_dyn_mut(&'a mut self) -> Self::Output {
        Cons(self.0.erase_mut(), self.1.as_dyn_mut())
    }
}

} // verus!
