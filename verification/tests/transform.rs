use rbx_types::lerp_boundary;
use rbx_types::CFrame;
use rbx_types::LerpBoundary;
use rbx_types::Matrix3;
use rbx_types::Vector3;

fn v3(x: f32, y: f32, z: f32) -> Vector3 {
    Vector3::new(x.to_bits(), y.to_bits(), z.to_bits())
}

fn sample() -> CFrame {
    CFrame::new(
        v3(10.0, 20.0, 30.0),
        Matrix3::new(v3(1.0, 2.0, 3.0), v3(4.0, 5.0, 6.0), v3(7.0, 8.0, 9.0)),
    )
}

#[test]
fn rotation_zeroes_the_position() {
    let cf = sample();
    let rot = cf.rotation();
    assert_eq!(rot.position, v3(0.0, 0.0, 0.0));
    assert_eq!(rot.orientation, cf.orientation);
}

#[test]
fn basis_vectors_are_columns() {
    let cf = sample();
    assert_eq!(cf.right_vector(), v3(1.0, 4.0, 7.0));
    assert_eq!(cf.up_vector(), v3(2.0, 5.0, 8.0));
    assert_eq!(cf.look_vector(), v3(-3.0, -6.0, -9.0));
}

#[test]
fn components_flatten_in_storage_order() {
    let cf = sample();
    let expected = (
        10.0f32.to_bits(),
        20.0f32.to_bits(),
        30.0f32.to_bits(),
        1.0f32.to_bits(),
        2.0f32.to_bits(),
        3.0f32.to_bits(),
        4.0f32.to_bits(),
        5.0f32.to_bits(),
        6.0f32.to_bits(),
        7.0f32.to_bits(),
        8.0f32.to_bits(),
        9.0f32.to_bits(),
    );
    assert_eq!(cf.components(), expected);
}

#[test]
fn from_parts_reassembles() {
    let cf = CFrame::from_parts(
        v3(1.0, 2.0, 3.0),
        v3(1.0, 0.0, 0.0),
        v3(0.0, 1.0, 0.0),
        v3(0.0, 0.0, 1.0),
    );
    assert_eq!(cf.orientation, Matrix3::identity());
    assert_eq!(cf.position, v3(1.0, 2.0, 3.0));
}

#[test]
fn interpolation_endpoints_are_exact() {
    // Alpha exactly zero (of either sign) selects the start, alpha exactly
    // one the goal; anything else is left to the interpolation arithmetic.
    assert_eq!(lerp_boundary(0.0f32.to_bits()), LerpBoundary::Start);
    assert_eq!(lerp_boundary((-0.0f32).to_bits()), LerpBoundary::Start);
    assert_eq!(lerp_boundary(1.0f32.to_bits()), LerpBoundary::End);
    assert_eq!(lerp_boundary(0.5f32.to_bits()), LerpBoundary::Interior);
    assert_eq!(lerp_boundary((-1.0f32).to_bits()), LerpBoundary::Interior);
    assert_eq!(lerp_boundary(2.0f32.to_bits()), LerpBoundary::Interior);
    assert_eq!(lerp_boundary(f32::NAN.to_bits()), LerpBoundary::Interior);
}
