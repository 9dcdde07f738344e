use rbxl_brs::orientation::{orientation, Direction, Rotation, ORIENTATION_MAP};

fn directions() -> [Direction; 6] {
    [
        Direction::XPositive,
        Direction::XNegative,
        Direction::YPositive,
        Direction::YNegative,
        Direction::ZPositive,
        Direction::ZNegative,
    ]
}

fn rotations() -> [Rotation; 4] {
    [Rotation::Deg0, Rotation::Deg90, Rotation::Deg180, Rotation::Deg270]
}

#[test]
fn ordinals_count_from_zero() {
    for (i, direction) in directions().into_iter().enumerate() {
        assert_eq!(usize::from(direction.ordinal()), i);
    }
    for (i, rotation) in rotations().into_iter().enumerate() {
        assert_eq!(usize::from(rotation.ordinal()), i);
    }
}

#[test]
fn lookup_is_at_four_times_direction_plus_rotation() {
    for (d, direction) in directions().into_iter().enumerate() {
        for (r, rotation) in rotations().into_iter().enumerate() {
            assert_eq!(orientation(direction, rotation, 0), ORIENTATION_MAP[4 * d + r]);
        }
    }
}

#[test]
fn adjustment_is_added_modulo_four() {
    for (d, direction) in directions().into_iter().enumerate() {
        for (r, rotation) in rotations().into_iter().enumerate() {
            for adjustment in 0u8..=255 {
                let turns = (r + usize::from(adjustment)) % 4;
                assert_eq!(
                    orientation(direction, rotation, adjustment),
                    ORIENTATION_MAP[4 * d + turns]
                );
            }
        }
    }
}

#[test]
fn every_entry_is_orthonormal() {
    for rot in ORIENTATION_MAP {
        for i in 0..3 {
            for j in 0..3 {
                let dot: i32 =
                    (0..3).map(|k| i32::from(rot[3 * k + i]) * i32::from(rot[3 * k + j])).sum();
                assert_eq!(dot, if i == j { 1 } else { 0 });
            }
        }
    }
}

#[test]
fn every_entry_is_a_proper_rotation() {
    for rot in ORIENTATION_MAP {
        let m: Vec<i32> = rot.iter().map(|e| i32::from(*e)).collect();
        let det = m[0] * (m[4] * m[8] - m[5] * m[7]) - m[1] * (m[3] * m[8] - m[5] * m[6])
            + m[2] * (m[3] * m[7] - m[4] * m[6]);
        assert_eq!(det, 1);
    }
}

#[test]
fn entries_after_the_first_are_all_different() {
    for i in 1..24 {
        for j in 1..i {
            assert_ne!(ORIENTATION_MAP[i], ORIENTATION_MAP[j]);
        }
    }
}

#[test]
fn first_entry_is_the_identity() {
    assert_eq!(ORIENTATION_MAP[0], [1, 0, 0, 0, 1, 0, 0, 0, 1]);
    assert_eq!(
        orientation(Direction::XPositive, Rotation::Deg0, 0),
        [1, 0, 0, 0, 1, 0, 0, 0, 1]
    );
    assert_eq!(
        orientation(Direction::XPositive, Rotation::Deg270, 1),
        [1, 0, 0, 0, 1, 0, 0, 0, 1]
    );
}

#[test]
fn entries_are_built_from_right_up_and_forward() {
    // The rows hold, column by column, the right axis, the up axis and the
    // reversed forward axis.
    assert_eq!(ORIENTATION_MAP[1], [0, 1, 0, 0, 0, 1, 1, 0, 0]);
    assert_eq!(ORIENTATION_MAP[9], [-1, 0, 0, 0, 0, 1, 0, 1, 0]);
    assert_eq!(ORIENTATION_MAP[16], [-1, 0, 0, 0, 1, 0, 0, 0, -1]);
    assert_eq!(ORIENTATION_MAP[23], [0, 0, 1, 0, -1, 0, 1, 0, 0]);
}

#[test]
fn upright_brick_turned_half_way_is_unrotated() {
    assert_eq!(
        orientation(Direction::ZPositive, Rotation::Deg180, 0),
        [1, 0, 0, 0, 1, 0, 0, 0, 1]
    );
    assert_eq!(
        orientation(Direction::ZPositive, Rotation::Deg0, 2),
        [1, 0, 0, 0, 1, 0, 0, 0, 1]
    );
}
