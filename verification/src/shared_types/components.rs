use crate::scalar::Scalar;
use crate::shared_types::{generic_of, vec6_zero, Relative6DVector, Vec6};
use vstd::prelude::*;

verus! {

/// `x` where zero lies below it, zero otherwise: the larger of `x` and zero.
/// A value that compares with nothing has no place at or above zero, and
/// becomes zero.
pub open spec fn floor_at_zero<S: Scalar>(x: S) -> S {
    if S::zero_value().below(x) {
        x
    } else {
        S::zero_value()
    }
}

/// `x` brought into the range from zero to one: zero where `x` lies below
/// zero, one where it lies above one, and `x` itself where it lies above zero
/// or below one. A value that compares with neither bound has no place in
/// the range, and becomes zero.
pub open spec fn clamp_unit<S: Scalar>(x: S) -> S {
    if x.below(S::zero_value()) {
        S::zero_value()
    } else if S::one_value().below(x) {
        S::one_value()
    } else if S::zero_value().below(x) || x.below(S::one_value()) {
        x
    } else {
        S::zero_value()
    }
}

/// Clamping settles: a clamped value has its place within its range, and
/// clamping it again changes nothing.
pub proof fn lemma_clamps_settle<S: Scalar>(x: S)
    ensures
        !floor_at_zero(x).below(S::zero_value()),
        floor_at_zero(x) == S::zero_value() || S::zero_value().below(floor_at_zero(x)),
        floor_at_zero(floor_at_zero(x)) == floor_at_zero(x),
        !clamp_unit(x).below(S::zero_value()),
        !S::one_value().below(clamp_unit(x)),
        clamp_unit(x) == S::zero_value() || clamp_unit(x) == S::one_value()
            || S::zero_value().below(clamp_unit(x)) || clamp_unit(x).below(S::one_value()),
        clamp_unit(clamp_unit(x)) == clamp_unit(x),
{
    S::lemma_below_asymmetric(S::zero_value(), S::zero_value());
    S::lemma_below_asymmetric(S::one_value(), S::one_value());
    S::lemma_below_asymmetric(S::zero_value(), S::one_value());
    S::lemma_below_asymmetric(S::zero_value(), x);
    S::lemma_zero_below_one();
}

/// The larger of `x` and zero.
fn at_least_zero<S: Scalar>(x: S) -> (r: S)
    ensures
        r == floor_at_zero(x),
{
    if S::zero().less_than(x) {
        x
    } else {
        S::zero()
    }
}

/// `x` brought into the range from zero to one.
fn within_unit<S: Scalar>(x: S) -> (r: S)
    ensures
        r == clamp_unit(x),
{
    if x.less_than(S::zero()) {
        S::zero()
    } else if S::one().less_than(x) {
        S::one()
    } else if S::zero().less_than(x) || x.less_than(S::one()) {
        x
    } else {
        S::zero()
    }
}

/// The commanded output of one thruster.
///
/// `strength_factor` scales the thruster's force and is zero or above it:
/// thrusters do not fire backwards. `current_status` is how hard the thruster
/// fires, from zero to one; an allocation overwrites it every cycle. Both are
/// clamped wherever they are written, so a reader never sees a value outside
/// its range, whatever a caller tried to store: a value that compares with
/// nothing, as some number types have, is stored as zero.
#[derive(Debug)]
pub struct Thruster<S: Scalar> {
    strength_factor: S,
    current_status: S,
}

impl<S: Scalar> Thruster<S> {
    /// Both values are held clamped: clamping them again would change
    /// nothing.
    #[verifier::type_invariant]
    closed spec fn within_ranges(&self) -> bool {
        &&& floor_at_zero(self.strength_factor) == self.strength_factor
        &&& clamp_unit(self.current_status) == self.current_status
    }

    /// The strength factor that this thruster holds.
    pub closed spec fn strength_factor(&self) -> S {
        self.strength_factor
    }

    /// The status that this thruster holds.
    pub closed spec fn current_status(&self) -> S {
        self.current_status
    }

    /// A thruster at rest with the given strength factor, raised to zero
    /// where it is below.
    pub fn new_with_strength_factor(strength_factor: S) -> (r: Self)
        ensures
            r.strength_factor() == floor_at_zero(strength_factor),
            r.current_status() == S::zero_value(),
    {
        proof {
            lemma_clamps_settle(strength_factor);
            lemma_clamps_settle(S::zero_value());
        }
        Thruster { strength_factor: at_least_zero(strength_factor), current_status: S::zero() }
    }

    /// A thruster at rest with the strength factor one.
    pub fn new() -> (r: Self)
        ensures
            r.strength_factor() == S::one_value(),
            r.current_status() == S::zero_value(),
    {
        proof {
            S::lemma_zero_below_one();
        }
        Self::new_with_strength_factor(S::one())
    }

    /// The strength factor, which is zero or above it.
    pub fn get_strength_factor(&self) -> (r: S)
        ensures
            r == self.strength_factor(),
            !r.below(S::zero_value()),
            r == S::zero_value() || S::zero_value().below(r),
    {
        proof {
            use_type_invariant(self);
            lemma_clamps_settle(self.strength_factor);
        }
        at_least_zero(self.strength_factor)
    }

    /// Stores `strength_factor`, raised to zero where it is below. The status
    /// stays as it is.
    pub fn set_strength_factor(&mut self, strength_factor: S) -> (r: &mut Self)
        ensures
            r.strength_factor() == floor_at_zero(strength_factor),
            r.current_status() == old(self).current_status(),
            *final(self) == *final(r),
    {
        proof {
            use_type_invariant(&*self);
            lemma_clamps_settle(strength_factor);
        }
        self.strength_factor = at_least_zero(strength_factor);
        self
    }

    /// The status, which is zero, one, or a value between them.
    pub fn get_current_status(&self) -> (r: S)
        ensures
            r == self.current_status(),
            !r.below(S::zero_value()),
            !S::one_value().below(r),
            r == S::zero_value() || r == S::one_value() || S::zero_value().below(r) || r.below(
                S::one_value(),
            ),
    {
        proof {
            use_type_invariant(self);
            lemma_clamps_settle(self.current_status);
        }
        within_unit(self.current_status)
    }

    /// Stores `current_status`, brought into the range from zero to one: a
    /// value with no place in the range is stored as zero. The strength
    /// factor stays as it is.
    pub fn set_current_status(&mut self, current_status: S) -> (r: &mut Self)
        ensures
            r.current_status() == clamp_unit(current_status),
            r.strength_factor() == old(self).strength_factor(),
            *final(self) == *final(r),
    {
        proof {
            use_type_invariant(&*self);
            lemma_clamps_settle(current_status);
        }
        self.current_status = within_unit(current_status);
        self
    }
}

impl<S: Scalar> Default for Thruster<S> {
    /// A thruster at rest with the strength factor one.
    fn default() -> (r: Self)
        ensures
            r.strength_factor() == S::one_value(),
            r.current_status() == S::zero_value(),
    {
        proof {
            S::lemma_zero_below_one();
        }
        Self::new_with_strength_factor(S::one())
    }
}

/// The velocity that the vehicle had in the last frame, in its own six-axis
/// frame. Nothing bounds the values.
#[derive(Debug)]
pub struct CurrentVelocity<S> {
    forward: S,
    right: S,
    upwards: S,
    turn_right: S,
    pitch_up: S,
    roll_right: S,
}

impl<S: Scalar> CurrentVelocity<S> {
    /// The velocity with the given six values.
    pub fn new(forward: S, right: S, upwards: S, turn_right: S, pitch_up: S, roll_right: S) -> (r:
        Self)
        ensures
            generic_of(&r) == (Vec6 { forward, right, upwards, turn_right, pitch_up, roll_right }),
    {
        CurrentVelocity { forward, right, upwards, turn_right, pitch_up, roll_right }
    }
}

impl<S: Scalar> Default for CurrentVelocity<S> {
    /// The velocity of a vehicle at rest.
    fn default() -> (r: Self)
        ensures
            generic_of(&r) == vec6_zero::<S>(),
    {
        CurrentVelocity {
            forward: S::zero(),
            right: S::zero(),
            upwards: S::zero(),
            turn_right: S::zero(),
            pitch_up: S::zero(),
            roll_right: S::zero(),
        }
    }
}

impl<S: Scalar> Relative6DVector<S> for CurrentVelocity<S> {
    closed spec fn forward(&self) -> S {
        self.forward
    }

    closed spec fn right(&self) -> S {
        self.right
    }

    closed spec fn upwards(&self) -> S {
        self.upwards
    }

    closed spec fn turn_right(&self) -> S {
        self.turn_right
    }

    closed spec fn pitch_up(&self) -> S {
        self.pitch_up
    }

    closed spec fn roll_right(&self) -> S {
        self.roll_right
    }

    fn get_forward(&self) -> S {
        self.forward
    }

    fn get_right(&self) -> S {
        self.right
    }

    fn get_upwards(&self) -> S {
        self.upwards
    }

    fn get_turn_right(&self) -> S {
        self.turn_right
    }

    fn get_pitch_up(&self) -> S {
        self.pitch_up
    }

    fn get_roll_right(&self) -> S {
        self.roll_right
    }
}

/// The velocity that the vehicle is meant to have, in its own six-axis frame.
/// Nothing bounds the values.
#[derive(Debug)]
pub struct IntendedVelocity<S> {
    forward: S,
    right: S,
    upwards: S,
    turn_right: S,
    pitch_up: S,
    roll_right: S,
}

impl<S: Scalar> IntendedVelocity<S> {
    /// The velocity with the given six values.
    pub fn new(forward: S, right: S, upwards: S, turn_right: S, pitch_up: S, roll_right: S) -> (r:
        Self)
        ensures
            generic_of(&r) == (Vec6 { forward, right, upwards, turn_right, pitch_up, roll_right }),
    {
        IntendedVelocity { forward, right, upwards, turn_right, pitch_up, roll_right }
    }
}

impl<S: Scalar> Default for IntendedVelocity<S> {
    /// The wish to be at rest.
    fn default() -> (r: Self)
        ensures
            generic_of(&r) == vec6_zero::<S>(),
    {
        IntendedVelocity {
            forward: S::zero(),
            right: S::zero(),
            upwards: S::zero(),
            turn_right: S::zero(),
            pitch_up: S::zero(),
            roll_right: S::zero(),
        }
    }
}

impl<S: Scalar> Relative6DVector<S> for IntendedVelocity<S> {
    closed spec fn forward(&self) -> S {
        self.forward
    }

    closed spec fn right(&self) -> S {
        self.right
    }

    closed spec fn upwards(&self) -> S {
        self.upwards
    }

    closed spec fn turn_right(&self) -> S {
        self.turn_right
    }

    closed spec fn pitch_up(&self) -> S {
        self.pitch_up
    }

    closed spec fn roll_right(&self) -> S {
        self.roll_right
    }

    fn get_forward(&self) -> S {
        self.forward
    }

    fn get_right(&self) -> S {
        self.right
    }

    fn get_upwards(&self) -> S {
        self.upwards
    }

    fn get_turn_right(&self) -> S {
        self.turn_right
    }

    fn get_pitch_up(&self) -> S {
        self.pitch_up
    }

    fn get_roll_right(&self) -> S {
        self.roll_right
    }
}

} // verus!
