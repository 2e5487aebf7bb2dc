use rbx_types::Error;
use rbx_types::Matrix3;
use rbx_types::Vector3;

const VALID_IDS: [u8; 24] = [
    0x02, 0x03, 0x05, 0x06, 0x07, 0x09, 0x0a, 0x0c, 0x0d, 0x0e, 0x10, 0x11, 0x14, 0x15, 0x17,
    0x18, 0x19, 0x1b, 0x1c, 0x1e, 0x1f, 0x20, 0x22, 0x23,
];

fn v(x: f32, y: f32, z: f32) -> Vector3 {
    Vector3::new(x.to_bits(), y.to_bits(), z.to_bits())
}

#[test]
fn every_valid_id_round_trips() {
    for &id in VALID_IDS.iter() {
        let m = Matrix3::from_basic_rotation_id(id).unwrap();
        assert_eq!(m.to_basic_rotation_id(), Some(id));
    }
}

#[test]
fn every_other_byte_is_rejected() {
    let mut ok: u32 = 0;
    for id in 0u8..=255 {
        match Matrix3::from_basic_rotation_id(id) {
            Ok(_) => {
                assert!(VALID_IDS.contains(&id));
                ok += 1;
            }
            Err(e) => {
                assert!(!VALID_IDS.contains(&id));
                assert_eq!(e, Error::InvalidRotationId { id });
            }
        }
    }
    assert_eq!(ok, 24);
}

#[test]
fn identity_has_the_first_code() {
    assert_eq!(Matrix3::identity().to_basic_rotation_id(), Some(0x02));
    assert_eq!(Matrix3::from_basic_rotation_id(0x02), Ok(Matrix3::identity()));
}

#[test]
fn transpose_swaps_rows_and_columns() {
    let m = Matrix3::new(v(1.0, 2.0, 3.0), v(4.0, 5.0, 6.0), v(7.0, 8.0, 9.0));
    let t = m.transpose();
    assert_eq!(t.x, v(1.0, 4.0, 7.0));
    assert_eq!(t.y, v(2.0, 5.0, 8.0));
    assert_eq!(t.z, v(3.0, 6.0, 9.0));
    assert_eq!(t.transpose(), m);
}

#[test]
fn drifted_rotation_still_compacts() {
    // Entries within machine epsilon of the exact table entries identify
    // the same rotation code.
    let almost_one = 1.0f32 + f32::EPSILON;
    let tiny = f32::EPSILON;
    let m = Matrix3::new(
        v(almost_one, tiny, 0.0),
        v(-tiny, 1.0, 0.0),
        v(0.0, 0.0, almost_one),
    );
    assert_eq!(m.to_basic_rotation_id(), Some(0x02));
}

#[test]
fn left_handed_basis_has_no_code() {
    // Negating one row of the identity flips handedness; the z-row check
    // must reject the candidate code instead of mislabeling it.
    let m = Matrix3::new(v(1.0, 0.0, 0.0), v(0.0, 1.0, 0.0), v(0.0, 0.0, -1.0));
    assert_eq!(m.to_basic_rotation_id(), None);
}

#[test]
fn non_axis_matrix_has_no_code() {
    let m = Matrix3::new(v(0.5, 0.5, 0.0), v(0.0, 1.0, 0.0), v(0.0, 0.0, 1.0));
    assert_eq!(m.to_basic_rotation_id(), None);
}
