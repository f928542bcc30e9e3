use vstd::prelude::*;

verus! {

/// A present/absent capsule whose variant is decided by the implementing
/// type itself: `TNone` is always absent, `TSome<T>` always present.
/// Total operations return one of the two, so an out-of-range request
/// needs no runtime failure path.
pub trait Optional<T>: Sized {
    /// The carried value, if any, as a standard optional value.
    spec fn spec_option(self) -> Option<T>;

    /// Discards the static present/absent information and yields a
    /// runtime-checkable optional value.
    fn to_option(self) -> (r: Option<T>)
        ensures
            r == self.spec_option(),
    ;
}

/// The always-absent capsule.
pub struct TNone;

/// The always-present capsule holding one value.
pub struct TSome<T>(pub T);

impl<T> Optional<T> for TNone {
    open spec fn spec_option(self) -> Option<T> {
        None
    }

    fn to_option(self) -> (r: Option<T>) {
        None
    }
}

impl<T> Optional<T> for TSome<T> {
    open spec fn spec_option(self) -> Option<T> {
        Some(self.0)
    }

    fn to_option(self) -> (r: Option<T>) {
        Some(self.0)
    }
}

impl TNone {
    /// Projects onto a borrow of the content; the absent capsule
    /// projects to the absent capsule.
    pub fn as_ref(&self) -> (r: TNone) {
        TNone
    }

    /// The mutable projection of the absent capsule is absent as well.
    pub fn as_mut(&mut self) -> (r: TNone) {
        TNone
    }
}

impl<T> TSome<T> {
    /// Projects onto a borrow of the content; the present capsule
    /// projects to a present borrow of the same value.
    pub fn as_ref(&self) -> (r: TSome<&T>)
        ensures
            *r.0 == self.0,
    {
        TSome(&self.0)
    }

    /// Projects onto a mutable borrow of the content, keeping the
    /// variant; nothing can be stated of a mutable borrow held as a
    /// value.
    pub fn as_mut<'a>(&'a mut self) -> TSome<&'a mut T> {
        TSome(&mut self.0)
    }
}

} // verus!
