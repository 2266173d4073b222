use crate::scalar::{
    lemma_product_distributes, lemma_sum_associates, lemma_sum_commutes, product_distributes,
    squares_and_sums_keep_sign, sum_associates, sum_commutes, Scalar,
};
use vstd::prelude::*;

pub mod components;

verus! {

/// A value in the vehicle's six degrees of freedom: three linear motions
/// (forward, right, upwards) and three rotations (turn right, pitch up, roll
/// right). The order of the fields is the order of indexing and iteration.
#[derive(Debug)]
pub struct Vec6<S> {
    pub forward: S,
    pub right: S,
    pub upwards: S,
    pub turn_right: S,
    pub pitch_up: S,
    pub roll_right: S,
}

impl<S> Vec6<S> {
    /// The six components in their fixed order.
    pub open spec fn components(&self) -> Seq<S> {
        seq![
            self.forward,
            self.right,
            self.upwards,
            self.turn_right,
            self.pitch_up,
            self.roll_right,
        ]
    }

    /// The component at position `i`, which is what `self[i]` means in
    /// specifications.
    pub open spec fn spec_index(&self, i: int) -> S
        recommends
            0 <= i < 6,
    {
        self.components()[i]
    }

    /// Starts an iteration over the six components. The vector is consumed:
    /// iterating again takes a fresh vector and starts from the beginning.
    pub fn into_iter(self) -> (it: Vec6Iterator<S>)
        ensures
            it == Vec6Iterator::over(self),
            it.remaining() == self.components(),
    {
        proof {
            lemma_iteration_matches_indexing(self, 0);
        }
        Vec6Iterator { this: self, index: 0 }
    }
}

impl<S> core::ops::Index<usize> for Vec6<S> {
    type Output = S;

    /// The component at position `index`. Positions run from 0 to 5; any other
    /// index is a mistake of the caller and is ruled out by `index_req`.
    fn index(&self, index: usize) -> (r: &S)
        ensures
            *r == self.components()[index as int],
    {
        match index {
            0 => &self.forward,
            1 => &self.right,
            2 => &self.upwards,
            3 => &self.turn_right,
            4 => &self.pitch_up,
            5 => &self.roll_right,
            _ => unreached(),
        }
    }
}

impl<S> vstd::std_specs::core::IndexSpecImpl<usize> for Vec6<S> {
    open spec fn index_req(&self, index: &usize) -> bool {
        *index < 6
    }
}

/// The components of `a` and `b` added position by position.
pub open spec fn vec6_sum<S: Scalar>(a: Vec6<S>, b: Vec6<S>) -> Vec6<S> {
    Vec6 {
        forward: a.forward.sum(b.forward),
        right: a.right.sum(b.right),
        upwards: a.upwards.sum(b.upwards),
        turn_right: a.turn_right.sum(b.turn_right),
        pitch_up: a.pitch_up.sum(b.pitch_up),
        roll_right: a.roll_right.sum(b.roll_right),
    }
}

/// The components of `b` taken from those of `a`, position by position.
pub open spec fn vec6_diff<S: Scalar>(a: Vec6<S>, b: Vec6<S>) -> Vec6<S> {
    Vec6 {
        forward: a.forward.diff(b.forward),
        right: a.right.diff(b.right),
        upwards: a.upwards.diff(b.upwards),
        turn_right: a.turn_right.diff(b.turn_right),
        pitch_up: a.pitch_up.diff(b.pitch_up),
        roll_right: a.roll_right.diff(b.roll_right),
    }
}

/// The vector whose six components are all zero.
pub open spec fn vec6_zero<S: Scalar>() -> Vec6<S> {
    Vec6 {
        forward: S::zero_value(),
        right: S::zero_value(),
        upwards: S::zero_value(),
        turn_right: S::zero_value(),
        pitch_up: S::zero_value(),
        roll_right: S::zero_value(),
    }
}

impl<S: Scalar> core::ops::Add for Vec6<S> {
    type Output = Vec6<S>;

    fn add(self, rhs: Vec6<S>) -> (r: Vec6<S>) {
        Vec6 {
            forward: self.forward.plus(rhs.forward),
            right: self.right.plus(rhs.right),
            upwards: self.upwards.plus(rhs.upwards),
            turn_right: self.turn_right.plus(rhs.turn_right),
            pitch_up: self.pitch_up.plus(rhs.pitch_up),
            roll_right: self.roll_right.plus(rhs.roll_right),
        }
    }
}

impl<S: Scalar> vstd::std_specs::ops::AddSpecImpl for Vec6<S> {
    open spec fn obeys_add_spec() -> bool {
        true
    }

    open spec fn add_req(self, rhs: Vec6<S>) -> bool {
        true
    }

    open spec fn add_spec(self, rhs: Vec6<S>) -> Vec6<S> {
        vec6_sum(self, rhs)
    }
}

impl<S: Scalar> core::ops::Sub for Vec6<S> {
    type Output = Vec6<S>;

    fn sub(self, rhs: Vec6<S>) -> (r: Vec6<S>) {
        Vec6 {
            forward: self.forward.minus(rhs.forward),
            right: self.right.minus(rhs.right),
            upwards: self.upwards.minus(rhs.upwards),
            turn_right: self.turn_right.minus(rhs.turn_right),
            pitch_up: self.pitch_up.minus(rhs.pitch_up),
            roll_right: self.roll_right.minus(rhs.roll_right),
        }
    }
}

impl<S: Scalar> vstd::std_specs::ops::SubSpecImpl for Vec6<S> {
    open spec fn obeys_sub_spec() -> bool {
        true
    }

    open spec fn sub_req(self, rhs: Vec6<S>) -> bool {
        true
    }

    open spec fn sub_spec(self, rhs: Vec6<S>) -> Vec6<S> {
        vec6_diff(self, rhs)
    }
}

/// An iteration over the components of one vector, in their fixed order.
pub struct Vec6Iterator<S> {
    this: Vec6<S>,
    index: usize,
}

impl<S> Vec6Iterator<S> {
    /// The iteration that `Vec6::into_iter` starts on `v`.
    pub closed spec fn over(v: Vec6<S>) -> Self {
        Vec6Iterator { this: v, index: 0 }
    }

    /// The components that are still to come, next one first.
    pub closed spec fn remaining(&self) -> Seq<S> {
        if self.index < 6 {
            self.this.components().skip(self.index as int)
        } else {
            Seq::empty()
        }
    }
}

impl<S: Copy> Vec6Iterator<S> {
    /// Hands out the next component, or `None` once all six are out. After
    /// that it keeps returning `None`.
    pub fn next(&mut self) -> (r: Option<S>)
        ensures
            old(self).remaining().len() > 0 ==> r == Some(old(self).remaining()[0])
                && final(self).remaining() == old(self).remaining().skip(1),
            old(self).remaining().len() == 0 ==> r.is_none() && *final(self) == *old(self),
    {
        if self.index >= 6 {
            return None;
        }
        let result = self.this[self.index];
        proof {
            let rest = self.this.components().skip(self.index as int);
            if self.index + 1 < 6 {
                assert(rest.skip(1) =~= self.this.components().skip(self.index + 1));
            } else {
                assert(rest.skip(1) =~= Seq::<S>::empty());
            }
        }
        self.index += 1;
        Some(result)
    }
}

/// Indexing and iteration agree: a fresh iteration over `v` has exactly the
/// six components of `v` before it, and the one at position `i` is `v[i]`.
pub proof fn lemma_iteration_matches_indexing<S>(v: Vec6<S>, i: int)
    requires
        0 <= i < 6,
    ensures
        Vec6Iterator::over(v).remaining() == v.components(),
        Vec6Iterator::over(v).remaining().len() == 6,
        Vec6Iterator::over(v).remaining()[i] == v[i],
{
    assert(v.components().skip(0) =~= v.components());
}

/// The sum of the six pairwise products of `a` and `b`, added up from the
/// first component to the last.
pub open spec fn dot_product<S: Scalar>(a: Vec6<S>, b: Vec6<S>) -> S {
    a.forward.product(b.forward).sum(a.right.product(b.right)).sum(
        a.upwards.product(b.upwards),
    ).sum(a.turn_right.product(b.turn_right)).sum(a.pitch_up.product(b.pitch_up)).sum(
        a.roll_right.product(b.roll_right),
    )
}

/// The dot product does not depend on the order of its two vectors.
pub proof fn lemma_dot_commutes<S: Scalar>(a: Vec6<S>, b: Vec6<S>)
    ensures
        dot_product(a, b) == dot_product(b, a),
{
    S::lemma_product_commutes(a.forward, b.forward);
    S::lemma_product_commutes(a.right, b.right);
    S::lemma_product_commutes(a.upwards, b.upwards);
    S::lemma_product_commutes(a.turn_right, b.turn_right);
    S::lemma_product_commutes(a.pitch_up, b.pitch_up);
    S::lemma_product_commutes(a.roll_right, b.roll_right);
}

/// Two sums added together can trade their second terms, where sums depend
/// neither on order nor on grouping.
proof fn lemma_sums_interchange<S: Scalar>(p: S, q: S, x: S, y: S)
    requires
        sum_commutes::<S>(),
        sum_associates::<S>(),
    ensures
        p.sum(q).sum(x.sum(y)) == p.sum(x).sum(q.sum(y)),
{
    lemma_sum_associates(p, q, x.sum(y));
    lemma_sum_associates(q, x, y);
    lemma_sum_commutes(q, x);
    lemma_sum_associates(x, q, y);
    lemma_sum_associates(p, x, q.sum(y));
}

/// The dot product is additive in its first vector, for scalars whose sums
/// depend neither on order nor on grouping and whose products distribute
/// over sums: `(a + b) . c == a . c + b . c`.
pub proof fn lemma_dot_distributes<S: Scalar>(a: Vec6<S>, b: Vec6<S>, c: Vec6<S>)
    requires
        sum_commutes::<S>(),
        sum_associates::<S>(),
        product_distributes::<S>(),
    ensures
        dot_product(vec6_sum(a, b), c) == dot_product(a, c).sum(dot_product(b, c)),
{
    let a0 = a.forward.product(c.forward);
    let b0 = b.forward.product(c.forward);
    let a1 = a0.sum(a.right.product(c.right));
    let b1 = b0.sum(b.right.product(c.right));
    let a2 = a1.sum(a.upwards.product(c.upwards));
    let b2 = b1.sum(b.upwards.product(c.upwards));
    let a3 = a2.sum(a.turn_right.product(c.turn_right));
    let b3 = b2.sum(b.turn_right.product(c.turn_right));
    let a4 = a3.sum(a.pitch_up.product(c.pitch_up));
    let b4 = b3.sum(b.pitch_up.product(c.pitch_up));
    let t0 = a.forward.sum(b.forward).product(c.forward);
    let t1 = t0.sum(a.right.sum(b.right).product(c.right));
    let t2 = t1.sum(a.upwards.sum(b.upwards).product(c.upwards));
    let t3 = t2.sum(a.turn_right.sum(b.turn_right).product(c.turn_right));
    let t4 = t3.sum(a.pitch_up.sum(b.pitch_up).product(c.pitch_up));
    lemma_product_distributes(a.forward, b.forward, c.forward);
    lemma_product_distributes(a.right, b.right, c.right);
    lemma_product_distributes(a.upwards, b.upwards, c.upwards);
    lemma_product_distributes(a.turn_right, b.turn_right, c.turn_right);
    lemma_product_distributes(a.pitch_up, b.pitch_up, c.pitch_up);
    lemma_product_distributes(a.roll_right, b.roll_right, c.roll_right);
    assert(t0 == a0.sum(b0));
    lemma_sums_interchange(a0, b0, a.right.product(c.right), b.right.product(c.right));
    assert(t1 == a1.sum(b1));
    lemma_sums_interchange(a1, b1, a.upwards.product(c.upwards), b.upwards.product(c.upwards));
    assert(t2 == a2.sum(b2));
    lemma_sums_interchange(
        a2,
        b2,
        a.turn_right.product(c.turn_right),
        b.turn_right.product(c.turn_right),
    );
    assert(t3 == a3.sum(b3));
    lemma_sums_interchange(a3, b3, a.pitch_up.product(c.pitch_up), b.pitch_up.product(c.pitch_up));
    assert(t4 == a4.sum(b4));
    lemma_sums_interchange(
        a4,
        b4,
        a.roll_right.product(c.roll_right),
        b.roll_right.product(c.roll_right),
    );
}

/// Whether zero swallows `v`: zero times each component of `v` is zero, and
/// zero added to zero is zero.
pub open spec fn zero_absorbs<S: Scalar>(v: Vec6<S>) -> bool {
    &&& S::zero_value().product(v.forward) == S::zero_value()
    &&& S::zero_value().product(v.right) == S::zero_value()
    &&& S::zero_value().product(v.upwards) == S::zero_value()
    &&& S::zero_value().product(v.turn_right) == S::zero_value()
    &&& S::zero_value().product(v.pitch_up) == S::zero_value()
    &&& S::zero_value().product(v.roll_right) == S::zero_value()
    &&& S::zero_value().sum(S::zero_value()) == S::zero_value()
}

/// Whether `v` less itself is the zero vector.
pub open spec fn diff_cancels<S: Scalar>(v: Vec6<S>) -> bool {
    vec6_diff(v, v) == vec6_zero::<S>()
}

/// A vector of zeros has the dot product zero with every vector that zero
/// swallows, on either side.
pub proof fn lemma_dot_with_zero<S: Scalar>(v: Vec6<S>)
    requires
        zero_absorbs(v),
    ensures
        dot_product(vec6_zero(), v) == S::zero_value(),
        dot_product(v, vec6_zero()) == S::zero_value(),
{
    lemma_dot_commutes(v, vec6_zero());
}

/// Among whole numbers zero swallows every vector, and every vector less
/// itself is the zero vector.
pub proof fn lemma_whole_numbers_cancel(v: Vec6<i64>)
    ensures
        zero_absorbs(v),
        diff_cancels(v),
{
    assert(0 * v.forward == 0 && 0 * v.right == 0 && 0 * v.upwards == 0) by (nonlinear_arith);
    assert(0 * v.turn_right == 0 && 0 * v.pitch_up == 0 && 0 * v.roll_right == 0)
        by (nonlinear_arith);
}

/// Whether `v` is within the range of `i64`.
pub open spec fn fits(v: int) -> bool {
    i64::MIN <= v <= i64::MAX
}

/// Whether `a` and `b` can be added without any component stopping at a
/// bound.
pub open spec fn sum_stays_in_range(a: Vec6<i64>, b: Vec6<i64>) -> bool {
    &&& fits(a.forward + b.forward)
    &&& fits(a.right + b.right)
    &&& fits(a.upwards + b.upwards)
    &&& fits(a.turn_right + b.turn_right)
    &&& fits(a.pitch_up + b.pitch_up)
    &&& fits(a.roll_right + b.roll_right)
}

/// The dot product of `a` and `b` in unbounded arithmetic.
pub open spec fn exact_dot(a: Vec6<i64>, b: Vec6<i64>) -> int {
    a.forward * b.forward + a.right * b.right + a.upwards * b.upwards + a.turn_right
        * b.turn_right + a.pitch_up * b.pitch_up + a.roll_right * b.roll_right
}

/// Whether the dot product of `a` and `b` comes about without any product
/// or partial sum stopping at a bound.
pub open spec fn dot_stays_in_range(a: Vec6<i64>, b: Vec6<i64>) -> bool {
    let p0 = a.forward * b.forward;
    let p1 = a.right * b.right;
    let p2 = a.upwards * b.upwards;
    let p3 = a.turn_right * b.turn_right;
    let p4 = a.pitch_up * b.pitch_up;
    let p5 = a.roll_right * b.roll_right;
    &&& fits(p0)
    &&& fits(p1)
    &&& fits(p2)
    &&& fits(p3)
    &&& fits(p4)
    &&& fits(p5)
    &&& fits(p0 + p1)
    &&& fits(p0 + p1 + p2)
    &&& fits(p0 + p1 + p2 + p3)
    &&& fits(p0 + p1 + p2 + p3 + p4)
    &&& fits(p0 + p1 + p2 + p3 + p4 + p5)
}

/// Where nothing stops at a bound, the dot product of whole numbers is the
/// dot product of unbounded arithmetic.
pub proof fn lemma_whole_number_dot_is_exact(a: Vec6<i64>, b: Vec6<i64>)
    requires
        dot_stays_in_range(a, b),
    ensures
        dot_product(a, b) == exact_dot(a, b),
{
}

/// The dot product of whole numbers is additive in its first vector, where
/// nothing stops at a bound on the way: `(a + b) . c == a . c + b . c`.
pub proof fn lemma_whole_number_dot_distributes(a: Vec6<i64>, b: Vec6<i64>, c: Vec6<i64>)
    requires
        sum_stays_in_range(a, b),
        dot_stays_in_range(a, c),
        dot_stays_in_range(b, c),
        dot_stays_in_range(vec6_sum(a, b), c),
    ensures
        dot_product(vec6_sum(a, b), c) == dot_product(a, c).sum(dot_product(b, c)),
{
    lemma_whole_number_dot_is_exact(a, c);
    lemma_whole_number_dot_is_exact(b, c);
    lemma_whole_number_dot_is_exact(vec6_sum(a, b), c);
    assert(exact_dot(vec6_sum(a, b), c) == exact_dot(a, c) + exact_dot(b, c)) by {
        assert((a.forward + b.forward) * c.forward == a.forward * c.forward + b.forward
            * c.forward) by (nonlinear_arith);
        assert((a.right + b.right) * c.right == a.right * c.right + b.right * c.right)
            by (nonlinear_arith);
        assert((a.upwards + b.upwards) * c.upwards == a.upwards * c.upwards + b.upwards
            * c.upwards) by (nonlinear_arith);
        assert((a.turn_right + b.turn_right) * c.turn_right == a.turn_right * c.turn_right
            + b.turn_right * c.turn_right) by (nonlinear_arith);
        assert((a.pitch_up + b.pitch_up) * c.pitch_up == a.pitch_up * c.pitch_up + b.pitch_up
            * c.pitch_up) by (nonlinear_arith);
        assert((a.roll_right + b.roll_right) * c.roll_right == a.roll_right * c.roll_right
            + b.roll_right * c.roll_right) by (nonlinear_arith);
    }
}

/// The dot product of a vector with itself does not lie below zero, for
/// scalars in which squares and sums of such values do not.
pub proof fn lemma_dot_with_itself_not_negative<S: Scalar>(v: Vec6<S>)
    requires
        squares_and_sums_keep_sign::<S>(),
    ensures
        !dot_product(v, v).below(S::zero_value()),
{
    let s1 = v.forward.product(v.forward).sum(v.right.product(v.right));
    let s2 = s1.sum(v.upwards.product(v.upwards));
    let s3 = s2.sum(v.turn_right.product(v.turn_right));
    let s4 = s3.sum(v.pitch_up.product(v.pitch_up));
    assert(!s1.below(S::zero_value()));
    assert(!s2.below(S::zero_value()));
    assert(!s3.below(S::zero_value()));
    assert(!s4.below(S::zero_value()));
}

/// What any six-axis value can do. An implementor supplies the six readings;
/// the conversion to `Vec6` and the dot product come with them.
pub trait Relative6DVector<S: Scalar> {
    spec fn forward(&self) -> S;

    spec fn right(&self) -> S;

    spec fn upwards(&self) -> S;

    spec fn turn_right(&self) -> S;

    spec fn pitch_up(&self) -> S;

    spec fn roll_right(&self) -> S;

    fn get_forward(&self) -> (r: S)
        ensures
            r == self.forward(),
    ;

    fn get_right(&self) -> (r: S)
        ensures
            r == self.right(),
    ;

    fn get_upwards(&self) -> (r: S)
        ensures
            r == self.upwards(),
    ;

    fn get_turn_right(&self) -> (r: S)
        ensures
            r == self.turn_right(),
    ;

    fn get_pitch_up(&self) -> (r: S)
        ensures
            r == self.pitch_up(),
    ;

    fn get_roll_right(&self) -> (r: S)
        ensures
            r == self.roll_right(),
    ;

    /// The same six readings as a `Vec6`, nothing lost.
    fn get_generic(&self) -> (r: Vec6<S>)
        ensures
            r == (Vec6 {
                forward: self.forward(),
                right: self.right(),
                upwards: self.upwards(),
                turn_right: self.turn_right(),
                pitch_up: self.pitch_up(),
                roll_right: self.roll_right(),
            }),
    {
        Vec6 {
            forward: self.get_forward(),
            right: self.get_right(),
            upwards: self.get_upwards(),
            turn_right: self.get_turn_right(),
            pitch_up: self.get_pitch_up(),
            roll_right: self.get_roll_right(),
        }
    }

    /// The dot product with `rhs`. A six-axis value of another type takes part
    /// through its `get_generic`.
    fn dot(&self, rhs: &Vec6<S>) -> (r: S)
        ensures
            r == dot_product(
                Vec6 {
                    forward: self.forward(),
                    right: self.right(),
                    upwards: self.upwards(),
                    turn_right: self.turn_right(),
                    pitch_up: self.pitch_up(),
                    roll_right: self.roll_right(),
                },
                *rhs,
            ),
    {
        let lhs = self.get_generic();
        lhs.forward.times(rhs.forward).plus(lhs.right.times(rhs.right)).plus(
            lhs.upwards.times(rhs.upwards),
        ).plus(lhs.turn_right.times(rhs.turn_right)).plus(lhs.pitch_up.times(rhs.pitch_up)).plus(
            lhs.roll_right.times(rhs.roll_right),
        )
    }
}

/// The six readings of `v` as a `Vec6`: what `get_generic` returns.
pub open spec fn generic_of<S: Scalar, V: Relative6DVector<S>>(v: &V) -> Vec6<S> {
    Vec6 {
        forward: v.forward(),
        right: v.right(),
        upwards: v.upwards(),
        turn_right: v.turn_right(),
        pitch_up: v.pitch_up(),
        roll_right: v.roll_right(),
    }
}

impl<S: Scalar> Relative6DVector<S> for Vec6<S> {
    open spec fn forward(&self) -> S {
        self.forward
    }

    open spec fn right(&self) -> S {
        self.right
    }

    open spec fn upwards(&self) -> S {
        self.upwards
    }

    open spec fn turn_right(&self) -> S {
        self.turn_right
    }

    open spec fn pitch_up(&self) -> S {
        self.pitch_up
    }

    open spec fn roll_right(&self) -> S {
        self.roll_right
    }

    fn get_forward(&self) -> S {
        self.forward
    }

    fn get_right(&self) -> S {
        self.right
    }

    fn get_upwards(&self) -> S {
        self.upwards
    }

    fn get_turn_right(&self) -> S {
        self.turn_right
    }

    fn get_pitch_up(&self) -> S {
        self.pitch_up
    }

    fn get_roll_right(&self) -> S {
        self.roll_right
    }
}

/// The directions that one thruster pushes in: how much of each of the six
/// degrees of freedom its output moves. Nothing bounds the values; keeping an
/// axis normalised is up to whoever configures the thruster.
#[derive(Debug, Clone, Copy)]
pub struct ForceAxis<S> {
    forward: S,
    right: S,
    upwards: S,
    turn_right: S,
    pitch_up: S,
    roll_right: S,
}

impl<S: Scalar> ForceAxis<S> {
    /// An axis with the given six values.
    pub fn new(forward: S, right: S, upwards: S, turn_right: S, pitch_up: S, roll_right: S) -> (r:
        Self)
        ensures
            generic_of(&r) == (Vec6 { forward, right, upwards, turn_right, pitch_up, roll_right }),
    {
        ForceAxis { forward, right, upwards, turn_right, pitch_up, roll_right }
    }
}

impl<S: Scalar> Default for ForceAxis<S> {
    /// The axis of a thruster that moves nothing: all six values are zero.
    fn default() -> (r: Self)
        ensures
            generic_of(&r) == vec6_zero::<S>(),
    {
        ForceAxis {
            forward: S::zero(),
            right: S::zero(),
            upwards: S::zero(),
            turn_right: S::zero(),
            pitch_up: S::zero(),
            roll_right: S::zero(),
        }
    }
}

impl<S: Scalar> Relative6DVector<S> for ForceAxis<S> {
    closed spec fn forward(&self) -> S {
        self.forward
    }

    closed spec fn right(&self) -> S {
        self.right
    }

    closed spec fn upwards(&self) -> S {
        self.upwards
    }

    closed spec fn turn_right(&self) -> S {
        self.turn_right
    }

    closed spec fn pitch_up(&self) -> S {
        self.pitch_up
    }

    closed spec fn roll_right(&self) -> S {
        self.roll_right
    }

    fn get_forward(&self) -> S {
        self.forward
    }

    fn get_right(&self) -> S {
        self.right
    }

    fn get_upwards(&self) -> S {
        self.upwards
    }

    fn get_turn_right(&self) -> S {
        self.turn_right
    }

    fn get_pitch_up(&self) -> S {
        self.pitch_up
    }

    fn get_roll_right(&self) -> S {
        self.roll_right
    }
}

} // verus!
