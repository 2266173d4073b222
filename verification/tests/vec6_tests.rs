use bevy_xpbd_3d_thrusters::prelude::{
    CurrentVelocity, ForceAxis, IntendedVelocity, Relative6DVector, Scalar, Vec6,
};

fn counting() -> Vec6<i64> {
    Vec6 { forward: 1, right: 2, upwards: 3, turn_right: 4, pitch_up: 5, roll_right: 6 }
}

fn descending() -> Vec6<i64> {
    Vec6 { forward: 6, right: 5, upwards: 4, turn_right: 3, pitch_up: 2, roll_right: 1 }
}

fn as_array(v: &Vec6<i64>) -> [i64; 6] {
    [v.forward, v.right, v.upwards, v.turn_right, v.pitch_up, v.roll_right]
}

#[test]
fn whole_numbers_saturate_at_the_bounds() {
    assert_eq!(i64::MAX.plus(1), i64::MAX);
    assert_eq!(i64::MIN.plus(-1), i64::MIN);
    assert_eq!(i64::MIN.minus(1), i64::MIN);
    assert_eq!(i64::MAX.minus(-1), i64::MAX);
    assert_eq!(i64::MAX.times(2), i64::MAX);
    assert_eq!(i64::MAX.times(-2), i64::MIN);
    assert_eq!(i64::MIN.times(i64::MIN), i64::MAX);
    assert_eq!(i64::MIN.times(i64::MAX), i64::MIN);
}

#[test]
fn whole_numbers_compute_exactly_within_the_bounds() {
    assert_eq!(3i64.times(-4), -12);
    assert_eq!(3i64.plus(-4), -1);
    assert_eq!(3i64.minus(-4), 7);
    assert_eq!(<i64 as Scalar>::zero(), 0);
    assert_eq!(<i64 as Scalar>::one(), 1);
    assert!(3i64.less_than(4));
    assert!(!4i64.less_than(4));
    assert!(!5i64.less_than(4));
}

#[test]
fn index_follows_the_field_order() {
    let v = counting();
    assert_eq!(v[0], 1);
    assert_eq!(v[1], 2);
    assert_eq!(v[2], 3);
    assert_eq!(v[3], 4);
    assert_eq!(v[4], 5);
    assert_eq!(v[5], 6);
}

#[test]
fn iteration_yields_six_values_then_stops() {
    let mut it = counting().into_iter();
    assert_eq!(it.next(), Some(1));
    assert_eq!(it.next(), Some(2));
    assert_eq!(it.next(), Some(3));
    assert_eq!(it.next(), Some(4));
    assert_eq!(it.next(), Some(5));
    assert_eq!(it.next(), Some(6));
    assert_eq!(it.next(), None);
    assert_eq!(it.next(), None);
}

#[test]
fn a_fresh_iteration_starts_from_the_beginning() {
    let mut first = counting().into_iter();
    assert_eq!(first.next(), Some(1));
    assert_eq!(first.next(), Some(2));
    let mut second = counting().into_iter();
    assert_eq!(second.next(), Some(1));
    assert_eq!(first.next(), Some(3));
}

#[test]
fn indexing_agrees_with_iteration() {
    let v = descending();
    let mut it = descending().into_iter();
    for i in 0..6usize {
        assert_eq!(it.next(), Some(v[i]));
    }
    assert_eq!(it.next(), None);
}

#[test]
fn addition_is_component_wise() {
    let s = counting() + descending();
    assert_eq!(as_array(&s), [7, 7, 7, 7, 7, 7]);
    let t = counting() + counting();
    assert_eq!(as_array(&t), [2, 4, 6, 8, 10, 12]);
}

#[test]
fn subtraction_is_component_wise() {
    let d = counting() - descending();
    assert_eq!(as_array(&d), [-5, -3, -1, 1, 3, 5]);
    let e = descending() - counting();
    assert_eq!(as_array(&e), [5, 3, 1, -1, -3, -5]);
}

#[test]
fn dot_is_the_sum_of_the_pairwise_products() {
    assert_eq!(counting().dot(&descending()), 6 + 10 + 12 + 12 + 10 + 6);
    assert_eq!(counting().dot(&counting()), 1 + 4 + 9 + 16 + 25 + 36);
}

#[test]
fn dot_takes_each_component_with_its_partner() {
    let weights = Vec6 {
        forward: 1i64,
        right: 10,
        upwards: 100,
        turn_right: 1000,
        pitch_up: 10000,
        roll_right: 100000,
    };
    assert_eq!(counting().dot(&weights), 654321);
    assert_eq!(descending().dot(&weights), 123456);
}

#[test]
fn dot_does_not_depend_on_the_order() {
    let a = Vec6 { forward: 3i64, right: -7, upwards: 11, turn_right: 0, pitch_up: -2, roll_right: 5 };
    let b = Vec6 { forward: -4i64, right: 9, upwards: 1, turn_right: 8, pitch_up: 6, roll_right: -3 };
    let ab = a.dot(&b);
    let ba = b.dot(&a);
    assert_eq!(ab, ba);
    assert_eq!(ab, -12 - 63 + 11 + 0 - 12 - 15);
}

#[test]
fn dot_of_a_vector_with_itself_is_not_negative() {
    let a = Vec6 { forward: 3i64, right: -7, upwards: 11, turn_right: 0, pitch_up: -2, roll_right: 5 };
    assert_eq!(a.dot(&a), 9 + 49 + 121 + 0 + 4 + 25);
}

#[test]
fn dot_is_additive_where_nothing_saturates() {
    let a = Vec6 { forward: 3i64, right: -7, upwards: 11, turn_right: 0, pitch_up: -2, roll_right: 5 };
    let b = Vec6 { forward: -4i64, right: 9, upwards: 1, turn_right: 8, pitch_up: 6, roll_right: -3 };
    let c = counting();
    let apart = a.dot(&c).plus(b.dot(&c));
    let together = (a + b).dot(&c);
    assert_eq!(together, apart);
}

#[test]
fn dot_is_not_additive_where_a_sum_saturates() {
    let a = Vec6 { forward: i64::MAX, right: 0, upwards: 0, turn_right: 0, pitch_up: 0, roll_right: 0 };
    let b = Vec6 { forward: 1i64, right: 0, upwards: 0, turn_right: 0, pitch_up: 0, roll_right: 0 };
    let c = Vec6 { forward: -1i64, right: 0, upwards: 0, turn_right: 0, pitch_up: 0, roll_right: 0 };
    let apart = a.dot(&c).plus(b.dot(&c));
    let together = (a + b).dot(&c);
    assert_eq!(apart, i64::MIN);
    assert_eq!(together, -i64::MAX);
}

#[test]
fn get_generic_keeps_all_six_values() {
    let axis = ForceAxis::new(1i64, 2, 3, 4, 5, 6);
    assert_eq!(as_array(&axis.get_generic()), [1, 2, 3, 4, 5, 6]);
    let current = CurrentVelocity::new(-1i64, -2, -3, -4, -5, -6);
    assert_eq!(as_array(&current.get_generic()), [-1, -2, -3, -4, -5, -6]);
    let intended = IntendedVelocity::new(6i64, 5, 4, 3, 2, 1);
    assert_eq!(as_array(&intended.get_generic()), [6, 5, 4, 3, 2, 1]);
    assert_eq!(as_array(&counting().get_generic()), [1, 2, 3, 4, 5, 6]);
}

#[test]
fn getters_read_their_own_field() {
    let axis = ForceAxis::new(1i64, 2, 3, 4, 5, 6);
    assert_eq!(axis.get_forward(), 1);
    assert_eq!(axis.get_right(), 2);
    assert_eq!(axis.get_upwards(), 3);
    assert_eq!(axis.get_turn_right(), 4);
    assert_eq!(axis.get_pitch_up(), 5);
    assert_eq!(axis.get_roll_right(), 6);
    let v = descending();
    assert_eq!(v.get_forward(), 6);
    assert_eq!(v.get_roll_right(), 1);
}

#[test]
fn defaults_are_all_zero() {
    let axis: ForceAxis<i64> = ForceAxis::default();
    assert_eq!(as_array(&axis.get_generic()), [0, 0, 0, 0, 0, 0]);
    let current: CurrentVelocity<i64> = CurrentVelocity::default();
    assert_eq!(as_array(&current.get_generic()), [0, 0, 0, 0, 0, 0]);
    let intended: IntendedVelocity<i64> = IntendedVelocity::default();
    assert_eq!(as_array(&intended.get_generic()), [0, 0, 0, 0, 0, 0]);
}

#[test]
fn six_axis_values_of_different_types_meet_in_a_dot_product() {
    let axis = ForceAxis::new(1i64, 0, 0, 0, 0, 2);
    let intended = IntendedVelocity::new(5i64, 9, 9, 9, 9, 7);
    assert_eq!(axis.dot(&intended.get_generic()), 19);
    assert_eq!(intended.dot(&axis.get_generic()), 19);
}

#[test]
fn force_axis_can_be_copied() {
    let axis = ForceAxis::new(1i64, 2, 3, 4, 5, 6);
    let copy = axis;
    assert_eq!(as_array(&axis.get_generic()), as_array(&copy.get_generic()));
}

#[test]
fn vectors_can_be_printed() {
    let text = format!("{:?}", counting());
    assert!(text.contains("forward: 1"));
    assert!(text.contains("roll_right: 6"));
}
