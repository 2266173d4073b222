use vstd::prelude::*;

verus! {

/// The numbers that six-axis vectors are made of.
///
/// An implementation fixes what its arithmetic returns: the executable
/// operations are total, never panic, and each returns the value that the
/// specification function beside it names, which depends on the operands
/// alone. It also answers for three laws: the product does not depend on the
/// order of its factors, no two values lie below each other, and zero lies
/// below one. Nothing else is assumed: sums may round or saturate, and need
/// be neither associative nor distributive.
///
/// An implementation in verified code proves the laws. One in code that is
/// not verified writes the specification functions as ordinary functions
/// with the same results as the operations, gives the laws empty bodies, and
/// vouches for both itself.
pub trait Scalar: Copy + Sized {
    /// The value that `zero` returns.
    spec fn zero_value() -> Self;

    /// The value that `one` returns.
    spec fn one_value() -> Self;

    /// What `plus` returns.
    spec fn sum(self, rhs: Self) -> Self;

    /// What `minus` returns.
    spec fn diff(self, rhs: Self) -> Self;

    /// What `times` returns.
    spec fn product(self, rhs: Self) -> Self;

    /// Whether `self` is strictly less than `rhs`.
    spec fn below(self, rhs: Self) -> bool;

    fn zero() -> (r: Self)
        ensures
            r == Self::zero_value(),
    ;

    fn one() -> (r: Self)
        ensures
            r == Self::one_value(),
    ;

    fn plus(self, rhs: Self) -> (r: Self)
        ensures
            r == self.sum(rhs),
    ;

    fn minus(self, rhs: Self) -> (r: Self)
        ensures
            r == self.diff(rhs),
    ;

    fn times(self, rhs: Self) -> (r: Self)
        ensures
            r == self.product(rhs),
    ;

    fn less_than(self, rhs: Self) -> (r: bool)
        ensures
            r == self.below(rhs),
    ;

    /// The product does not depend on the order of its factors.
    proof fn lemma_product_commutes(a: Self, b: Self)
        ensures
            a.product(b) == b.product(a),
    ;

    /// No two values lie below each other, so none lies below itself.
    proof fn lemma_below_asymmetric(a: Self, b: Self)
        ensures
            !(a.below(b) && b.below(a)),
    ;

    /// Zero lies strictly below one.
    proof fn lemma_zero_below_one()
        ensures
            Self::zero_value().below(Self::one_value()),
    ;
}

/// Whether sums in `S` do not depend on the order of their terms.
#[verifier::opaque]
pub open spec fn sum_commutes<S: Scalar>() -> bool {
    forall|x: S, y: S| #[trigger] x.sum(y) == y.sum(x)
}

/// Whether sums in `S` do not depend on how their terms are grouped.
#[verifier::opaque]
pub open spec fn sum_associates<S: Scalar>() -> bool {
    forall|x: S, y: S, z: S| #[trigger] x.sum(y).sum(z) == x.sum(y.sum(z))
}

/// Whether multiplying a sum in `S` gives the sum of the products.
#[verifier::opaque]
pub open spec fn product_distributes<S: Scalar>() -> bool {
    forall|x: S, y: S, z: S| #[trigger] x.sum(y).product(z) == x.product(z).sum(y.product(z))
}

/// One instance of `sum_commutes`.
pub proof fn lemma_sum_commutes<S: Scalar>(x: S, y: S)
    requires
        sum_commutes::<S>(),
    ensures
        x.sum(y) == y.sum(x),
{
    reveal(sum_commutes);
}

/// One instance of `sum_associates`.
pub proof fn lemma_sum_associates<S: Scalar>(x: S, y: S, z: S)
    requires
        sum_associates::<S>(),
    ensures
        x.sum(y).sum(z) == x.sum(y.sum(z)),
{
    reveal(sum_associates);
}

/// One instance of `product_distributes`.
pub proof fn lemma_product_distributes<S: Scalar>(x: S, y: S, z: S)
    requires
        product_distributes::<S>(),
    ensures
        x.sum(y).product(z) == x.product(z).sum(y.product(z)),
{
    reveal(product_distributes);
}

/// Whether nothing in `S` turns negative by being squared or by being added
/// to: no square lies below zero, and neither does the sum of two values that
/// do not.
pub open spec fn squares_and_sums_keep_sign<S: Scalar>() -> bool {
    &&& forall|x: S| !(#[trigger] x.product(x)).below(S::zero_value())
    &&& forall|x: S, y: S|
        !x.below(S::zero_value()) && !y.below(S::zero_value()) ==> !(#[trigger] x.sum(y)).below(
            S::zero_value(),
        )
}

/// The value of `i64` nearest to `v`.
pub open spec fn saturate(v: int) -> i64 {
    if v < i64::MIN {
        i64::MIN
    } else if v > i64::MAX {
        i64::MAX
    } else {
        v as i64
    }
}

/// Brings a wide intermediate result back into `i64`, stopping at the
/// nearest bound when it does not fit.
fn narrow(wide: i128) -> (r: i64)
    ensures
        r == saturate(wide as int),
{
    if wide < i64::MIN as i128 {
        i64::MIN
    } else if wide > i64::MAX as i128 {
        i64::MAX
    } else {
        wide as i64
    }
}

/// Whole numbers with saturating arithmetic: a result that does not fit in
/// `i64` becomes the nearest bound instead of wrapping around.
impl Scalar for i64 {
    open spec fn zero_value() -> i64 {
        0
    }

    open spec fn one_value() -> i64 {
        1
    }

    open spec fn sum(self, rhs: i64) -> i64 {
        saturate(self + rhs)
    }

    open spec fn diff(self, rhs: i64) -> i64 {
        saturate(self - rhs)
    }

    open spec fn product(self, rhs: i64) -> i64 {
        saturate(self * rhs)
    }

    open spec fn below(self, rhs: i64) -> bool {
        self < rhs
    }

    fn zero() -> i64 {
        0
    }

    fn one() -> i64 {
        1
    }

    fn plus(self, rhs: i64) -> i64 {
        narrow(self as i128 + rhs as i128)
    }

    fn minus(self, rhs: i64) -> i64 {
        narrow(self as i128 - rhs as i128)
    }

    fn times(self, rhs: i64) -> i64 {
        assert(-0x4000_0000_0000_0000_0000_0000_0000_0000 <= self * rhs
            <= 0x4000_0000_0000_0000_0000_0000_0000_0000) by (nonlinear_arith)
            requires
                -0x8000_0000_0000_0000 <= self <= 0x7fff_ffff_ffff_ffff,
                -0x8000_0000_0000_0000 <= rhs <= 0x7fff_ffff_ffff_ffff,
        ;
        narrow(self as i128 * rhs as i128)
    }

    fn less_than(self, rhs: i64) -> bool {
        self < rhs
    }

    proof fn lemma_product_commutes(a: i64, b: i64) {
        assert(a * b == b * a) by (nonlinear_arith);
    }

    proof fn lemma_below_asymmetric(a: i64, b: i64) {
    }

    proof fn lemma_zero_below_one() {
    }
}

/// Among saturating whole numbers no square lies below zero, and neither
/// does the sum of two values that do not.
pub proof fn lemma_whole_numbers_keep_sign()
    ensures
        squares_and_sums_keep_sign::<i64>(),
{
    assert forall|x: i64| !(#[trigger] x.product(x)).below(0i64) by {
        assert(x * x >= 0) by (nonlinear_arith);
    }
}

} // verus!
