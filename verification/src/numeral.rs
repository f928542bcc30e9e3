use vstd::prelude::*;

verus! {

/// A type-level natural number: the value is the nesting depth of `Succ`
/// wrappers around `Zero`.
pub trait Nat: Sized {
    /// The natural number this type stands for.
    spec fn spec_value() -> nat;

    /// The represented value as a runtime constant.
    fn value() -> (r: usize)
        requires
            Self::spec_value() <= usize::MAX,
        ensures
            r == Self::spec_value(),
    ;
}

/// The numeral of value zero.
pub struct Zero;

/// The successor of the numeral `N`: its value is `N`'s value plus one.
pub struct Succ<N: Nat>(pub N);

impl Nat for Zero {
    open spec fn spec_value() -> nat {
        0
    }

    fn value() -> (r: usize) {
        0
    }
}

impl<N: Nat> Nat for Succ<N> {
    open spec fn spec_value() -> nat {
        N::spec_value() + 1
    }

    fn value() -> (r: usize) {
        N::value() + 1
    }
}

/// Type-level addition, resolved by structural recursion on `Self`:
/// `Zero + B = B` and `Succ<N> + B = Succ<N + B>`.
pub trait NatAdd<B: Nat>: Nat {
    type Sum: Nat;

    /// The resolved sum's value is the sum of the two values.
    proof fn lemma_sum_value()
        ensures
            <Self::Sum as Nat>::spec_value() == Self::spec_value() + B::spec_value(),
    ;
}

impl<B: Nat> NatAdd<B> for Zero {
    type Sum = B;

    proof fn lemma_sum_value() {
    }
}

impl<N: Nat + NatAdd<B>, B: Nat> NatAdd<B> for Succ<N> {
    type Sum = Succ<<N as NatAdd<B>>::Sum>;

    proof fn lemma_sum_value() {
        <N as NatAdd<B>>::lemma_sum_value();
    }
}

/// Type-level multiplication, resolved as repeated addition:
/// `Zero * B = Zero` and `Succ<N> * B = (N * B) + B`.
pub trait NatMul<B: Nat>: Nat {
    type Product: Nat;

    /// The resolved product's value is the product of the two values.
    proof fn lemma_product_value()
        ensures
            <Self::Product as Nat>::spec_value() == Self::spec_value() * B::spec_value(),
    ;
}

impl<B: Nat> NatMul<B> for Zero {
    type Product = Zero;

    proof fn lemma_product_value() {
    }
}

impl<N, B> NatMul<B> for Succ<N> where
    N: NatMul<B>,
    B: Nat,
    <N as NatMul<B>>::Product: NatAdd<B>,
 {
    type Product = <<N as NatMul<B>>::Product as NatAdd<B>>::Sum;

    proof fn lemma_product_value() {
        <N as NatMul<B>>::lemma_product_value();
        <<N as NatMul<B>>::Product as NatAdd<B>>::lemma_sum_value();
        assert(forall|n: nat, b: nat| #[trigger] ((n + 1) * b) == n * b + b) by (nonlinear_arith);
    }
}

/// Addition of numerals is associative: `(A + B) + C` and `A + (B + C)`
/// resolve to numerals of the same value.
pub proof fn lemma_add_associative<A, B, C>()
    where
        B: Nat,
        C: Nat,
        A: NatAdd<B>,
        B: NatAdd<C>,
        <A as NatAdd<B>>::Sum: NatAdd<C>,
        A: NatAdd<<B as NatAdd<C>>::Sum>,
    ensures
        <<<A as NatAdd<B>>::Sum as NatAdd<C>>::Sum as Nat>::spec_value()
            == <<A as NatAdd<<B as NatAdd<C>>::Sum>>::Sum as Nat>::spec_value(),
{
    <A as NatAdd<B>>::lemma_sum_value();
    <B as NatAdd<C>>::lemma_sum_value();
    <<A as NatAdd<B>>::Sum as NatAdd<C>>::lemma_sum_value();
    <A as NatAdd<<B as NatAdd<C>>::Sum>>::lemma_sum_value();
}

/// `Zero` is an identity for addition on both sides: `A + Zero` and
/// `Zero + A` both resolve to a numeral with `A`'s value.
pub proof fn lemma_add_zero_identity<A>()
    where
        A: NatAdd<Zero>,
    ensures
        <<A as NatAdd<Zero>>::Sum as Nat>::spec_value() == A::spec_value(),
        <<Zero as NatAdd<A>>::Sum as Nat>::spec_value() == A::spec_value(),
{
    <A as NatAdd<Zero>>::lemma_sum_value();
    <Zero as NatAdd<A>>::lemma_sum_value();
}

/// Multiplication distributes over addition: `A * (B + C)` resolves to a
/// numeral whose value is `A * B + A * C`.
pub proof fn lemma_mul_distributes<A, B, C>()
    where
        A: Nat,
        C: Nat,
        B: NatAdd<C>,
        A: NatMul<<B as NatAdd<C>>::Sum>,
        A: NatMul<B>,
        A: NatMul<C>,
    ensures
        <<A as NatMul<<B as NatAdd<C>>::Sum>>::Product as Nat>::spec_value()
            == <<A as NatMul<B>>::Product as Nat>::spec_value()
                + <<A as NatMul<C>>::Product as Nat>::spec_value(),
{
    <B as NatAdd<C>>::lemma_sum_value();
    <A as NatMul<<B as NatAdd<C>>::Sum>>::lemma_product_value();
    <A as NatMul<B>>::lemma_product_value();
    <A as NatMul<C>>::lemma_product_value();
    assert(forall|a: nat, b: nat, c: nat| #[trigger] (a * (b + c)) == a * b + a * c)
        by (nonlinear_arith);
}

} // verus!
