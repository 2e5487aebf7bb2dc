use rbx_types::Vector2int16;
use rbx_types::Vector3;
use rbx_types::Vector3int16;

fn v3(x: f32, y: f32, z: f32) -> Vector3 {
    Vector3::new(x.to_bits(), y.to_bits(), z.to_bits())
}

#[test]
fn axis_vectors_have_normal_ids() {
    assert_eq!(v3(1.0, 0.0, 0.0).to_normal_id(), Some(0));
    assert_eq!(v3(0.0, 1.0, 0.0).to_normal_id(), Some(1));
    assert_eq!(v3(0.0, 0.0, 1.0).to_normal_id(), Some(2));
    assert_eq!(v3(-1.0, 0.0, 0.0).to_normal_id(), Some(3));
    assert_eq!(v3(0.0, -1.0, 0.0).to_normal_id(), Some(4));
    assert_eq!(v3(0.0, 0.0, -1.0).to_normal_id(), Some(5));
}

#[test]
fn diagonal_has_no_normal_id() {
    assert_eq!(v3(0.5, 0.5, 0.0).to_normal_id(), None);
    assert_eq!(v3(1.0, 1.0, 0.0).to_normal_id(), None);
    assert_eq!(v3(0.0, 0.0, 0.0).to_normal_id(), None);
}

#[test]
fn tolerance_window_is_machine_epsilon() {
    let eps = f32::EPSILON;
    // A unit within one epsilon qualifies; two epsilon above does not.
    assert_eq!(v3(1.0 + eps, 0.0, 0.0).to_normal_id(), Some(0));
    assert_eq!(v3(1.0 - eps, 0.0, 0.0).to_normal_id(), Some(0));
    assert_eq!(v3(1.0 + 2.0 * eps, 0.0, 0.0).to_normal_id(), None);
    // A coordinate at epsilon still counts as zero; above it does not.
    assert_eq!(v3(0.0, -1.0, eps).to_normal_id(), Some(4));
    assert_eq!(v3(0.0, -1.0, 2.0 * eps).to_normal_id(), None);
    // Negative zero is zero.
    assert_eq!(v3(-0.0, 0.0, -1.0).to_normal_id(), Some(5));
}

#[test]
fn int16_arithmetic_is_exact() {
    let a = Vector3int16::new(100, -200, 300);
    let b = Vector3int16::new(-1, 2, -3);
    assert_eq!(a.add(b), Vector3int16::new(99, -198, 297));
    assert_eq!(a.sub(b), Vector3int16::new(101, -202, 303));
    assert_eq!(b.neg(), Vector3int16::new(1, -2, 3));
    assert_eq!(a.component_mul(b), Vector3int16::new(-100, -400, -900));
    assert_eq!(a.scale(2), Vector3int16::new(200, -400, 600));

    let p = Vector2int16::new(7, -9);
    let q = Vector2int16::new(3, 3);
    assert_eq!(p.add(q), Vector2int16::new(10, -6));
    assert_eq!(p.sub(q), Vector2int16::new(4, -12));
    assert_eq!(p.neg(), Vector2int16::new(-7, 9));
    assert_eq!(p.component_mul(q), Vector2int16::new(21, -27));
    assert_eq!(q.scale(-5), Vector2int16::new(-15, -15));
}
