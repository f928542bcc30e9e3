use vstd::prelude::*;

use crate::hlist::Cons;
use crate::hlist::HList;
use crate::hlist::Nil;

verus! {

/// A callable capability over one argument type. A single stateless
/// value may implement it for several unrelated argument types, so the
/// same value can be invoked at every position of a heterogeneous
/// sequence; an ordinary generic function cannot serve there, because
/// its instantiation is fixed once it is taken as a value.
pub trait Apply<A>: Sized {
    type Output;

    /// The value the callable computes from an argument. An implementing
    /// type gives it a body of its own; otherwise nothing is known of
    /// the result.
    open spec fn spec_apply(&self, arg: A) -> Self::Output {
        arbitrary()
    }

    fn apply(&self, arg: A) -> (r: Self::Output)
        ensures
            r == self.spec_apply(arg),
    ;
}

/// Applies one callable value to every element in order, producing a new
/// sequence of the mapped types; the empty sequence maps to itself.
pub trait MapWith<F>: HList {
    type Output: HList;

    /// The mapped sequence: the callable's result at every position.
    spec fn spec_map(self, f: F) -> Self::Output;

    fn map(self, f: &F) -> (r: Self::Output)
        ensures
            r == self.spec_map(*f),
    ;

    /// Mapping keeps the shape: one result per position.
    proof fn lemma_map_len(self, f: F)
        ensures
            self.spec_map(f).spec_len() == self.spec_len(),
    ;
}

impl<F> MapWith<F> for Nil {
    type Output = Nil;

    open spec fn spec_map(self, f: F) -> Nil {
        Nil
    }

    fn map(self, f: &F) -> (r: Nil) {
        Nil
    }

    proof fn lemma_map_len(self, f: F) {
    }
}

impl<F: Apply<Head>, Head, Tail: MapWith<F>> MapWith<F> for Cons<Head, Tail> {
    type Output = Cons<<F as Apply<Head>>::Output, <Tail as MapWith<F>>::Output>;

    open spec fn spec_map(self, f: F) -> Self::Output {
        Cons(f.spec_apply(self.0), self.1.spec_map(f))
    }

    fn map(self, f: &F) -> (r: Self::Output) {
        Cons(f.apply(self.0), self.1.map(f))
    }

    proof fn lemma_map_len(self, f: F) {
        self.1.lemma_map_len(f);
    }
}

} // verus!
