use glyph_sprites::animation::{linear_interpolation, AnimateProperty, Animation, Easing, Interpolator, VectorSpace};
use glyph_sprites::position::Position;

#[test]
fn accumulating_updates_reach_five_and_a_half_times_the_span() {
    let mut p = AnimateProperty::new(Position::zero());
    p.set_animation(1000, Interpolator::linear(Position::new(0, 0), Position::new(100, 0)));
    let mut expected = 0;
    for k in 1..=10 {
        p.update(100);
        expected += 10 * k;
        assert_eq!(p.property.x_i32(), expected);
        assert_eq!(p.property.y_i32(), 0);
    }
    assert_eq!(p.property.x_i32(), 550);
}

#[test]
fn updates_continue_past_the_duration() {
    let mut p = AnimateProperty::new(Position::zero());
    p.set_animation(1000, Interpolator::linear(Position::zero(), Position::new(10, 0)));
    p.update(1000);
    assert_eq!(p.property.x_i32(), 10);
    p.update(1000);
    assert_eq!(p.property.x_i32(), 30);
}

#[test]
fn no_animation_leaves_property() {
    let mut p = AnimateProperty::new(Position::new(3, -4));
    p.update(500);
    assert_eq!(p.property, Position::new(3, -4));
}

#[test]
fn set_animation_restarts_elapsed_time() {
    let mut p = AnimateProperty::new(Position::zero());
    p.set_animation(1000, Interpolator::linear(Position::zero(), Position::new(100, 0)));
    p.update(500);
    assert_eq!(p.property.x_i32(), 50);
    p.set_animation(1000, Interpolator::linear(Position::zero(), Position::new(0, 100)));
    p.update(100);
    assert_eq!(p.property.x_i32(), 50);
    assert_eq!(p.property.y_i32(), 10);
}

#[test]
fn delta_uses_difference_of_endpoints() {
    let i = Interpolator::linear(Position::new(10, 10), Position::new(30, 0));
    assert_eq!(i.delta(1, 2), Position::new(10, -5));
    assert_eq!(i.delta(3, 2), Position::new(30, -15));
}

#[test]
fn zero_duration_counts_as_complete() {
    let mut a = Animation::new(0, Interpolator::linear(Position::zero(), Position::new(7, 0)));
    assert_eq!(a.advance(16), Position::new(7, 0));
    assert_eq!(a.current_dt, 16);
}

#[test]
fn linear_easing_is_identity() {
    assert_eq!(linear_interpolation(3, 8), (3, 8));
    assert_eq!(Easing::Linear.factor(5, 4), (5, 4));
}

#[test]
fn position_arithmetic() {
    let a = Position::new(1, 2);
    let b = Position::new(3, -5);
    assert_eq!(a.add(&b), Position::new(4, -3));
    assert_eq!(a.sub(&b), Position::new(-2, 7));
    assert_eq!(b.scale(1, 2), Position { x: 1500, y: -2500 });
    assert_eq!(Position { x: -1999, y: 1999 }.scale(1, 1).x_i32(), -1);
    let big = Position { x: i64::MAX, y: i64::MIN };
    assert_eq!(big.add(&big), big);
    assert_eq!(big.scale(3, 1), big);
}

#[test]
fn cells_truncate_toward_zero_and_saturate() {
    assert_eq!(Position { x: 1999, y: -1999 }.x_i32(), 1);
    assert_eq!(Position { x: 1999, y: -1999 }.y_i32(), -1);
    assert_eq!(Position { x: i64::MAX, y: i64::MIN }.x_i32(), i32::MAX);
    assert_eq!(Position { x: i64::MAX, y: i64::MIN }.y_i32(), i32::MIN);
}
