use fibonacci_sphere::spiral::{spiral_steps, SpiralStep};

#[test]
fn hundred_points_give_ninety_nine() {
    let steps = spiral_steps(100);
    assert_eq!(steps.len(), 99);
    assert_eq!(steps[0], SpiralStep { index: 0, z_numerator: 99 });
    assert_eq!(steps[1], SpiralStep { index: 1, z_numerator: 97 });
    assert_eq!(steps[98], SpiralStep { index: 98, z_numerator: -97 });
}

#[test]
fn consecutive_steps_advance_by_one_turn_and_one_height_step() {
    let steps = spiral_steps(100);
    for w in steps.windows(2) {
        assert_eq!(w[1].index, w[0].index + 1);
        assert_eq!(w[0].z_numerator - w[1].z_numerator, 2);
    }
}

#[test]
fn all_steps_lie_strictly_between_the_poles() {
    let n: u16 = 37;
    for s in spiral_steps(n) {
        assert!(s.z_numerator > -(n as i32) && s.z_numerator < n as i32);
    }
}

#[test]
fn zero_and_one_points_give_none() {
    assert!(spiral_steps(0).is_empty());
    assert!(spiral_steps(1).is_empty());
}

#[test]
fn two_points_give_the_northern_one() {
    assert_eq!(spiral_steps(2), vec![SpiralStep { index: 0, z_numerator: 1 }]);
}

#[test]
fn largest_count() {
    let steps = spiral_steps(u16::MAX);
    assert_eq!(steps.len(), 65534);
    assert_eq!(steps[0].z_numerator, 65534);
    assert_eq!(steps[65533], SpiralStep { index: 65533, z_numerator: -65532 });
}
