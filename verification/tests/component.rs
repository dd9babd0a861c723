use buttery::{Smoothed, TransformComponent, Translate};
use glam::Vec3;

type Scalar = TransformComponent<Translate<f32, f32>>;
type Vector = TransformComponent<Translate<Vec3, f32>>;
type Whole = TransformComponent<Translate<i64, i64>>;

/// A rule of the caller's own: jump to the target once half the way is asked
/// for, stay put before.
struct Step;

impl Smoothed for Step {
    type Attribute = i32;
    type Scalar = f32;

    fn drive(target: i32, current: i32, percent: f32) -> i32 {
        if percent >= 0.5 {
            target
        } else {
            current
        }
    }
}

fn whole_pow(base: i64, exponent: i64) -> i64 {
    base.pow(exponent as u32)
}

#[test]
fn new_starts_at_rest() {
    let component: Scalar = TransformComponent::new(0.5, 3.0);
    assert_eq!(component.retention, 0.5);
    assert_eq!(component.current, 3.0);
    assert_eq!(component.target, 3.0);
}

#[test]
fn presets_have_their_retentions() {
    let translate: Vector = TransformComponent::new_translate(Vec3::X);
    assert_eq!(translate.retention, 0.01);
    assert_eq!(translate.current, Vec3::X);
    assert_eq!(translate.target, Vec3::X);

    let zoom: Scalar = TransformComponent::new_zoom(2.0);
    assert_eq!(zoom.retention, 0.03);
    assert_eq!(zoom.current, 2.0);
    assert_eq!(zoom.target, 2.0);

    let angle: Scalar = TransformComponent::new_angle(0.4);
    assert_eq!(angle.retention, 0.04);
    assert_eq!(angle.current, 0.4);
    assert_eq!(angle.target, 0.4);
}

#[test]
fn hard_set_snaps_current_and_target() {
    let mut component: Scalar = TransformComponent::new(0.2, 1.0);
    component.target = 9.0;
    component.hard_set(5.0);
    assert_eq!(component.current, 5.0);
    assert_eq!(component.target, 5.0);
    assert_eq!(component.retention, 0.2);
}

#[test]
fn drive_after_hard_set_returns_the_set_value() {
    for delta_time in [0.0, 0.016, 1.0, 250.0] {
        let mut component: Scalar = TransformComponent::new_translate(0.0);
        component.target = 3.0;
        component.drive(0.5, &f32::powf);
        component.hard_set(5.0);
        assert_eq!(component.drive(delta_time, &f32::powf), 5.0);
        assert_eq!(component.current, 5.0);
        assert_eq!(component.target, 5.0);
    }
}

#[test]
fn one_second_leaves_the_retention_of_the_distance() {
    let mut component: Scalar = TransformComponent::new(0.01, 0.0);
    component.target = 10.0;
    let next = component.drive(1.0, &f32::powf);
    assert_eq!(next, 9.9);
    assert_eq!(component.current, 9.9);
    assert_eq!(component.target, 10.0);
    assert_eq!(component.retention, 0.01);
}

#[test]
fn two_seconds_leave_the_square_of_the_retention() {
    let mut component: Scalar = TransformComponent::new(0.5, 0.0);
    component.target = 8.0;
    assert_eq!(component.drive(2.0, &f32::powf), 6.0);
}

#[test]
fn drive_retaining_interpolates_linearly() {
    let mut component: Scalar = TransformComponent::new(0.9, 2.0);
    component.target = 10.0;
    assert_eq!(component.drive_retaining(0.25), 8.0);
    assert_eq!(component.current, 8.0);
    assert_eq!(component.target, 10.0);
    assert_eq!(component.retention, 0.9);
}

#[test]
fn drive_retaining_moves_downwards_too() {
    let mut component: Scalar = TransformComponent::new(0.9, 10.0);
    component.target = 2.0;
    assert_eq!(component.drive_retaining(0.5), 6.0);
}

#[test]
fn drive_by_no_time_changes_nothing() {
    for (retention, current, target) in
        [(0.01, 1.5, -7.25), (0.5, 0.0, 1.0e6), (0.99, -3.0, -3.0), (0.0, 4.0, 5.0), (1.0, 4.0, 5.0)]
    {
        let mut component: Scalar = TransformComponent::new(retention, current);
        component.target = target;
        assert_eq!(component.drive(0.0, &f32::powf), current);
        assert_eq!(component.current, current);
        assert_eq!(component.target, target);
    }

    let mut vector: Vector = TransformComponent::new_translate(Vec3::new(1.0, -2.0, 3.5));
    vector.target = Vec3::new(9.0, 9.0, -9.0);
    assert_eq!(vector.drive(0.0, &f32::powf), Vec3::new(1.0, -2.0, 3.5));
    assert_eq!(vector.current, Vec3::new(1.0, -2.0, 3.5));
}

#[test]
fn repeated_drives_converge_monotonically() {
    for (retention, delta_time) in [(0.5, 0.25), (0.01, 0.016), (0.9, 1.0), (0.04, 0.5)] {
        let mut component: Scalar = TransformComponent::new(retention, 0.0);
        component.target = 8.0;
        let mut distance = 8.0_f32;
        for _ in 0..2000 {
            let next = component.drive(delta_time, &f32::powf);
            let left = (8.0 - next).abs();
            assert!(left <= distance, "{left} > {distance}");
            assert!(left < distance || left < 1e-5, "stuck at {left}");
            distance = left;
        }
        assert!(distance < 1e-5, "{distance}");
        assert_eq!(component.target, 8.0);
    }
}

#[test]
fn zero_retention_snaps_to_the_target() {
    for delta_time in [0.001, 0.016, 1.0, 30.0] {
        let mut component: Scalar = TransformComponent::new(0.0, 2.0);
        component.target = 10.0;
        assert_eq!(component.drive(delta_time, &f32::powf), 10.0);
        assert_eq!(component.current, 10.0);
    }
}

#[test]
fn retention_near_one_barely_moves() {
    let mut frozen: Scalar = TransformComponent::new(1.0, 2.0);
    frozen.target = 10.0;
    assert_eq!(frozen.drive(0.016, &f32::powf), 2.0);

    let mut previous = f32::MAX;
    for retention in [0.9, 0.99, 0.999, 0.9999] {
        let mut component: Scalar = TransformComponent::new(retention, 2.0);
        component.target = 10.0;
        let moved = component.drive(0.016, &f32::powf) - 2.0;
        assert!(moved > 0.0);
        assert!(moved < previous);
        previous = moved;
    }
    assert!(previous < 1e-4);
}

#[test]
fn vectors_are_driven_in_every_coordinate() {
    let mut component: Vector = TransformComponent::new(0.25, Vec3::new(0.0, 4.0, -8.0));
    component.target = Vec3::new(8.0, 4.0, 0.0);
    let next = component.drive(1.0, &f32::powf);
    assert_eq!(next, Vec3::new(6.0, 4.0, -2.0));
    assert_eq!(component.current, next);
}

#[test]
fn whole_numbers_rest_or_arrive() {
    let mut component: Whole = TransformComponent::new(0, 3);
    component.target = 10;
    assert_eq!(component.drive_retaining(1), 3);
    assert_eq!(component.current, 3);
    assert_eq!(component.drive_retaining(0), 10);
    assert_eq!(component.current, 10);

    let mut component: Whole = TransformComponent::new(0, 3);
    component.target = -10;
    assert_eq!(component.drive(0, &whole_pow), 3);
    assert_eq!(component.current, 3);
    assert_eq!(component.drive(2, &whole_pow), -10);
    assert_eq!(component.current, -10);
    assert_eq!(component.drive(5, &whole_pow), -10);

    let lazy: Whole = TransformComponent::new_zoom(7);
    assert_eq!(lazy.retention, 0);
}

#[test]
fn a_rule_of_ones_own_is_driven_alike() {
    let mut component: TransformComponent<Step> = TransformComponent::new(0.25, 1);
    component.target = 7;
    assert_eq!(component.drive(0.25, &f32::powf), 1);
    assert_eq!(component.current, 1);
    assert_eq!(component.drive(1.0, &f32::powf), 7);
    assert_eq!(component.current, 7);
    assert_eq!(component.target, 7);
}

#[test]
fn the_power_function_gets_retention_and_time() {
    let mut component: Scalar = TransformComponent::new(0.125, 0.0);
    component.target = 16.0;
    let next = component.drive(3.0, &|base: f32, exponent: f32| {
        assert_eq!(base, 0.125);
        assert_eq!(exponent, 3.0);
        0.75
    });
    assert_eq!(next, 4.0);
}

#[test]
fn double_precision_scalars_work_alike() {
    let mut component: TransformComponent<Translate<f64, f64>> = TransformComponent::new_angle(0.0);
    assert_eq!(component.retention, 0.04);
    component.target = 100.0;
    let next = component.drive(1.0, &f64::powf);
    assert_eq!(next, 96.0);
    assert_eq!(component.current, 96.0);
    assert_eq!(component.drive(0.0, &f64::powf), 96.0);
}
