use rbxl_brs::cframe::{CoordinateFrame, Matrix3, Row3, Vector3};

fn block(rows: [[i32; 3]; 3]) -> Matrix3 {
    Matrix3 {
        x: Row3 { x: rows[0][0], y: rows[0][1], z: rows[0][2] },
        y: Row3 { x: rows[1][0], y: rows[1][1], z: rows[1][2] },
        z: Row3 { x: rows[2][0], y: rows[2][1], z: rows[2][2] },
    }
}

fn identity_block() -> Matrix3 {
    block([[1, 0, 0], [0, 1, 0], [0, 0, 1]])
}

fn samples() -> Vec<CoordinateFrame> {
    vec![
        CoordinateFrame::default(),
        CoordinateFrame::new(3, -4, 5),
        CoordinateFrame::new(-70, 0, 12),
        CoordinateFrame::rx(1),
        CoordinateFrame::ry(1),
        CoordinateFrame::rz(1),
        CoordinateFrame::rx(2),
        CoordinateFrame::ry(-1),
        CoordinateFrame::angles(1, 2, 3),
        CoordinateFrame::from_rotation(1, 2, 3, [0, 1, 0, -1, 0, 0, 0, 0, 1]),
    ]
}

#[test]
fn default_is_the_identity() {
    let frame = CoordinateFrame::default();
    assert_eq!(frame.rotation_matrix(), identity_block());
    assert_eq!(frame.position(), Vector3 { x: 0, y: 0, z: 0 });
}

#[test]
fn new_is_a_translation() {
    let frame = CoordinateFrame::new(3, -4, 5);
    assert_eq!(frame.rotation_matrix(), identity_block());
    assert_eq!(frame.position(), Vector3 { x: 3, y: -4, z: 5 });
}

#[test]
fn from_rotation_keeps_block_and_position() {
    let frame = CoordinateFrame::from_rotation(7, 8, 9, [1, 2, 3, 4, 5, 6, 7, 8, 9]);
    assert_eq!(frame.rotation_matrix(), block([[1, 2, 3], [4, 5, 6], [7, 8, 9]]));
    assert_eq!(frame.position(), Vector3 { x: 7, y: 8, z: 9 });
    assert_eq!(
        Matrix3::from_rows([1, 2, 3, 4, 5, 6, 7, 8, 9]),
        block([[1, 2, 3], [4, 5, 6], [7, 8, 9]])
    );
}

#[test]
fn quarter_turn_about_x() {
    assert_eq!(
        CoordinateFrame::rx(1).rotation_matrix(),
        block([[1, 0, 0], [0, 0, -1], [0, 1, 0]])
    );
    assert_eq!(
        CoordinateFrame::rx(2).rotation_matrix(),
        block([[1, 0, 0], [0, -1, 0], [0, 0, -1]])
    );
    assert_eq!(CoordinateFrame::rx(1).position(), Vector3 { x: 0, y: 0, z: 0 });
}

#[test]
fn quarter_turn_about_y() {
    assert_eq!(
        CoordinateFrame::ry(1).rotation_matrix(),
        block([[0, 0, 1], [0, 1, 0], [-1, 0, 0]])
    );
    assert_eq!(
        CoordinateFrame::ry(3).rotation_matrix(),
        block([[0, 0, -1], [0, 1, 0], [1, 0, 0]])
    );
}

#[test]
fn quarter_turn_about_z() {
    assert_eq!(
        CoordinateFrame::rz(1).rotation_matrix(),
        block([[0, -1, 0], [1, 0, 0], [0, 0, 1]])
    );
    assert_eq!(CoordinateFrame::rz(0), CoordinateFrame::default());
}

#[test]
fn turns_count_modulo_four() {
    for k in -9i32..=9 {
        assert_eq!(CoordinateFrame::rx(k), CoordinateFrame::rx(k + 4));
        assert_eq!(CoordinateFrame::ry(k), CoordinateFrame::ry(k - 8));
        assert_eq!(CoordinateFrame::rz(k), CoordinateFrame::rz(k.rem_euclid(4)));
    }
    assert_eq!(CoordinateFrame::rx(-1), CoordinateFrame::rx(3));
    assert_eq!(CoordinateFrame::ry(i32::MIN), CoordinateFrame::ry(0));
    assert_eq!(CoordinateFrame::rz(i32::MAX), CoordinateFrame::rz(3));
}

#[test]
fn turns_match_cosine_and_sine() {
    for k in -6i32..=6 {
        let angle = f64::from(k) * std::f64::consts::FRAC_PI_2;
        let c = angle.cos().round() as i32;
        let s = angle.sin().round() as i32;
        assert_eq!(
            CoordinateFrame::rx(k).rotation_matrix(),
            block([[1, 0, 0], [0, c, -s], [0, s, c]])
        );
        assert_eq!(
            CoordinateFrame::ry(k).rotation_matrix(),
            block([[c, 0, s], [0, 1, 0], [-s, 0, c]])
        );
        assert_eq!(
            CoordinateFrame::rz(k).rotation_matrix(),
            block([[c, -s, 0], [s, c, 0], [0, 0, 1]])
        );
    }
}

#[test]
fn angles_turn_about_x_first() {
    let frame = CoordinateFrame::angles(1, 2, 3);
    let expected = CoordinateFrame::rz(3) * CoordinateFrame::ry(2) * CoordinateFrame::rx(1);
    assert_eq!(frame, expected);
    assert_eq!(frame.rotation_matrix(), block([[0, 0, -1], [1, 0, 0], [0, -1, 0]]));
}

#[test]
fn product_applies_right_factor_first() {
    let moved = CoordinateFrame::new(10, 0, 0);
    let turned = CoordinateFrame::rz(1);
    let turn_then_move = moved * turned;
    assert_eq!(turn_then_move.position(), Vector3 { x: 10, y: 0, z: 0 });
    assert_eq!(turn_then_move.rotation_matrix(), turned.rotation_matrix());
    let move_then_turn = turned * moved;
    assert_eq!(move_then_turn.position(), Vector3 { x: 0, y: 10, z: 0 });
    assert_eq!(move_then_turn.rotation_matrix(), turned.rotation_matrix());
    assert_ne!(turn_then_move, move_then_turn);
}

#[test]
fn product_is_the_homogeneous_matrix_product() {
    let a = CoordinateFrame::from_rotation(1, 2, 3, [1, 2, 0, 0, 1, -1, 2, 0, 1]);
    let b = CoordinateFrame::from_rotation(-4, 5, 6, [0, 1, 1, 3, 0, -2, 1, 1, 0]);
    let product = a * b;
    assert_eq!(product.rotation_matrix(), block([[6, 1, -3], [2, -1, -2], [1, 3, 2]]));
    assert_eq!(product.position(), Vector3 { x: 7, y: 1, z: 1 });
}

#[test]
fn identity_is_neutral() {
    let identity = CoordinateFrame::default();
    for frame in samples() {
        assert_eq!(identity * frame, frame);
        assert_eq!(frame * identity, frame);
    }
}

#[test]
fn product_is_associative() {
    for a in samples() {
        for b in samples() {
            for c in samples() {
                assert_eq!((a * b) * c, a * (b * c));
            }
        }
    }
}

#[test]
fn checked_product_agrees_with_product() {
    for a in samples() {
        for b in samples() {
            assert_eq!(a.checked_mul(&b), Some(a * b));
        }
    }
}

#[test]
fn checked_product_refuses_what_does_not_fit() {
    let far = CoordinateFrame::new(i64::MAX, 0, 0);
    let step = CoordinateFrame::new(1, 0, 0);
    assert_eq!(far.checked_mul(&step), None);
    assert_eq!(step.checked_mul(&far), None);
    let back = CoordinateFrame::new(-1, 0, 0);
    assert_eq!(
        far.checked_mul(&back).map(|frame| frame.position()),
        Some(Vector3 { x: i64::MAX - 1, y: 0, z: 0 })
    );
    let steep = CoordinateFrame::from_rotation(0, 0, 0, [50_000, 0, 0, 0, 1, 0, 0, 0, 1]);
    assert_eq!(steep.checked_mul(&steep), None);
    let low = CoordinateFrame::from_rotation(0, 0, 0, [i32::MIN, 0, 0, 0, 1, 0, 0, 0, 1]);
    let flip = CoordinateFrame::from_rotation(0, 0, 0, [-1, 0, 0, 0, 1, 0, 0, 0, 1]);
    assert_eq!(low.checked_mul(&flip), None);
    assert_eq!(
        flip.checked_mul(&flip).map(|frame| frame.rotation_matrix()),
        Some(identity_block())
    );
}

#[test]
fn products_of_turns_stay_orthonormal() {
    let turns = [
        CoordinateFrame::rx(1),
        CoordinateFrame::ry(1),
        CoordinateFrame::rz(1),
        CoordinateFrame::rx(2),
        CoordinateFrame::rz(3),
    ];
    for a in turns {
        for b in turns {
            let m = (a * b).rotation_matrix();
            let columns = [
                [i32::from(m.x.x), i32::from(m.y.x), i32::from(m.z.x)],
                [i32::from(m.x.y), i32::from(m.y.y), i32::from(m.z.y)],
                [i32::from(m.x.z), i32::from(m.y.z), i32::from(m.z.z)],
            ];
            for i in 0..3 {
                for j in 0..3 {
                    let dot: i32 = (0..3).map(|k| columns[i][k] * columns[j][k]).sum();
                    assert_eq!(dot, if i == j { 1 } else { 0 });
                }
            }
        }
    }
}

#[test]
fn blocks_need_not_be_rotations() {
    let twelves = CoordinateFrame::from_rotation(0, 0, 0, [12; 9]);
    assert_eq!((twelves * twelves).rotation_matrix(), block([[432; 3]; 3]));
    let wide = CoordinateFrame::from_rotation(1, 1, 1, [40_000, 0, 0, 0, -40_000, 0, 7, 0, 1]);
    let product = wide.checked_mul(&wide).unwrap();
    assert_eq!(
        product.rotation_matrix(),
        block([[1_600_000_000, 0, 0], [0, 1_600_000_000, 0], [280_007, 0, 1]])
    );
    assert_eq!(product.position(), Vector3 { x: 40_001, y: -39_999, z: 9 });
}
