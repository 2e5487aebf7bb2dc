use rbx_types::Color3;
use rbx_types::Color3uint8;
use rbx_types::Error;
use rbx_types::Matrix3;
use rbx_types::NumberRange;
use rbx_types::Rect;
use rbx_types::Region3;
use rbx_types::Region3int16;
use rbx_types::Scalar;
use rbx_types::UDim;
use rbx_types::UDim2;
use rbx_types::Vector2;
use rbx_types::Vector2int16;
use rbx_types::Vector3;
use rbx_types::Vector3int16;

fn f(x: f32) -> Scalar {
    Scalar::Float(x.to_bits())
}

fn v2(x: f32, y: f32) -> Vector2 {
    Vector2::new(x.to_bits(), y.to_bits())
}

fn v3(x: f32, y: f32, z: f32) -> Vector3 {
    Vector3::new(x.to_bits(), y.to_bits(), z.to_bits())
}

#[test]
fn vec2_json() {
    let value = v2(2.0, 3.5);
    let encoded = value.encode_tuple();
    assert_eq!(encoded, vec![f(2.0), f(3.5)]);
    assert_eq!(Vector2::decode_tuple(&encoded), Ok(value));
}

#[test]
fn udim_json() {
    let value = UDim::new(1.0f32.to_bits(), 175);
    let encoded = value.encode_tuple();
    assert_eq!(encoded, vec![f(1.0), Scalar::Int(175)]);
    assert_eq!(UDim::decode_tuple(&encoded), Ok(value));
}

#[test]
fn udim2_json() {
    let value = UDim2::new(
        UDim::new(0.0f32.to_bits(), 30),
        UDim::new(1.0f32.to_bits(), 60),
    );
    let encoded = value.encode_tuple();
    assert_eq!(
        encoded,
        vec![vec![f(0.0), Scalar::Int(30)], vec![f(1.0), Scalar::Int(60)]]
    );
    assert_eq!(UDim2::decode_tuple(&encoded), Ok(value));
}

#[test]
fn region3_json() {
    let value = Region3::new(v3(-1.0, -2.0, -3.0), v3(4.0, 5.0, 6.0));
    let encoded = value.encode_tuple();
    assert_eq!(
        encoded,
        vec![vec![f(-1.0), f(-2.0), f(-3.0)], vec![f(4.0), f(5.0), f(6.0)]]
    );
    assert_eq!(Region3::decode_tuple(&encoded), Ok(value));
}

#[test]
fn matrix3_json() {
    let value = Matrix3::new(v3(1.0, 2.0, 3.0), v3(4.0, 5.0, 6.0), v3(7.0, 8.0, 9.0));
    let encoded = value.encode_tuple();
    assert_eq!(
        encoded,
        vec![
            vec![f(1.0), f(2.0), f(3.0)],
            vec![f(4.0), f(5.0), f(6.0)],
            vec![f(7.0), f(8.0), f(9.0)],
        ]
    );
    assert_eq!(Matrix3::decode_tuple(&encoded), Ok(value));
}

#[test]
fn every_flat_type_round_trips() {
    let v = v3(1.5, -0.0, f32::NAN);
    assert_eq!(Vector3::decode_tuple(&v.encode_tuple()), Ok(v));

    let vi = Vector2int16::new(-5, 32767);
    assert_eq!(vi.encode_tuple(), vec![Scalar::Short(-5), Scalar::Short(32767)]);
    assert_eq!(Vector2int16::decode_tuple(&vi.encode_tuple()), Ok(vi));

    let vi3 = Vector3int16::new(-32768, 0, 7);
    assert_eq!(Vector3int16::decode_tuple(&vi3.encode_tuple()), Ok(vi3));

    let c = Color3::new(0.25f32.to_bits(), 0.5f32.to_bits(), 2.5f32.to_bits());
    assert_eq!(Color3::decode_tuple(&c.encode_tuple()), Ok(c));

    let cb = Color3uint8::new(0, 128, 255);
    assert_eq!(
        cb.encode_tuple(),
        vec![Scalar::Byte(0), Scalar::Byte(128), Scalar::Byte(255)]
    );
    assert_eq!(Color3uint8::decode_tuple(&cb.encode_tuple()), Ok(cb));

    let nr = NumberRange::new(3.0f32.to_bits(), (-1.0f32).to_bits());
    assert_eq!(NumberRange::decode_tuple(&nr.encode_tuple()), Ok(nr));
}

#[test]
fn every_nested_type_round_trips() {
    let r = Rect::new(v2(0.0, 0.0), v2(10.0, 20.0));
    assert_eq!(Rect::decode_tuple(&r.encode_tuple()), Ok(r));

    let ri = Region3int16::new(Vector3int16::new(-1, -2, -3), Vector3int16::new(1, 2, 3));
    assert_eq!(Region3int16::decode_tuple(&ri.encode_tuple()), Ok(ri));
}

#[test]
fn wrong_length_is_rejected() {
    let short = vec![f(1.0)];
    assert_eq!(
        Vector2::decode_tuple(&short),
        Err(Error::MismatchedLength { expected: 2, found: 1 })
    );
    let long = vec![f(1.0), f(2.0), f(3.0), f(4.0)];
    assert_eq!(
        Vector3::decode_tuple(&long),
        Err(Error::MismatchedLength { expected: 3, found: 4 })
    );
    let rows = vec![vec![f(1.0), f(2.0), f(3.0)]];
    assert_eq!(
        Region3::decode_tuple(&rows),
        Err(Error::MismatchedLength { expected: 2, found: 1 })
    );
}

#[test]
fn wrong_field_type_is_rejected() {
    let mixed = vec![f(1.0), f(2.0)];
    assert_eq!(
        UDim::decode_tuple(&mixed),
        Err(Error::MismatchedField { index: 1 })
    );
    let ints = vec![Scalar::Int(1), Scalar::Int(2)];
    assert_eq!(
        Vector2::decode_tuple(&ints),
        Err(Error::MismatchedField { index: 0 })
    );
    let rows = vec![vec![f(0.5), Scalar::Int(1)], vec![Scalar::Byte(9), Scalar::Int(2)]];
    assert_eq!(
        UDim2::decode_tuple(&rows),
        Err(Error::MismatchedField { index: 0 })
    );
}

#[test]
fn float_fields_travel_bit_exactly() {
    // A NaN payload and a negative zero both survive the tuple path
    // unchanged, because no arithmetic touches the patterns.
    let odd_nan = f32::from_bits(0x7FC0_1234);
    let value = v2(odd_nan, -0.0);
    let decoded = Vector2::decode_tuple(&value.encode_tuple()).unwrap();
    assert_eq!(decoded.x, 0x7FC0_1234);
    assert_eq!(decoded.y, 0x8000_0000);
}
