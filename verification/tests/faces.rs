use rbx_types::Error;
use rbx_types::Faces;

fn names(list: &[&str]) -> Vec<String> {
    list.iter().map(|s| s.to_string()).collect()
}

#[test]
fn human_de() {
    let empty = Faces::decode_human(&names(&[])).unwrap();
    assert_eq!(empty, Faces::empty());

    let x = Faces::decode_human(&names(&["Right"])).unwrap();
    assert_eq!(x, Faces::new(true, false, false, false, false, false));

    let all = Faces::decode_human(&names(&["Right", "Top", "Back", "Left", "Bottom", "Front"]))
        .unwrap();
    assert_eq!(all, Faces::all());
}

#[test]
fn human_ser() {
    let empty = Faces::empty().encode_human();
    assert_eq!(empty, Vec::<String>::new());

    let x = Faces::new(false, false, false, true, false, false).encode_human();
    assert_eq!(x, names(&["Left"]));

    let all = Faces::all().encode_human();
    assert_eq!(all, names(&["Right", "Top", "Back", "Left", "Bottom", "Front"]));
}

#[test]
fn human_duplicate() {
    let x = Faces::decode_human(&names(&["Right", "Right", "Right", "Right"])).unwrap();
    assert_eq!(x, Faces::new(true, false, false, false, false, false));
}

#[test]
fn human_invalid() {
    // calzone is not a face of a cube
    let invalid = Faces::decode_human(&names(&["calzone"]));
    assert_eq!(invalid, Err(Error::UnknownFaceName { name: "calzone".to_string() }));
}

#[test]
fn human_order_insensitive() {
    let scrambled = Faces::decode_human(&names(&["Front", "Back", "Right"])).unwrap();
    assert_eq!(scrambled, Faces::new(true, false, true, false, false, true));
    assert_eq!(scrambled.encode_human(), names(&["Right", "Back", "Front"]));
}

#[test]
fn human_reports_first_stranger() {
    let r = Faces::decode_human(&names(&["Right", "Rigth", "Top"]));
    assert_eq!(r, Err(Error::UnknownFaceName { name: "Rigth".to_string() }));
}

#[test]
fn non_human() {
    let empty = Faces::empty();
    assert_eq!(Faces::from_bits(empty.bits()), Some(empty));

    let right = Faces::new(true, false, false, false, false, false);
    assert_eq!(right.bits(), 1);
    assert_eq!(Faces::from_bits(right.bits()), Some(right));

    let all = Faces::all();
    assert_eq!(all.bits(), 63);
    assert_eq!(Faces::from_bits(all.bits()), Some(all));
}

#[test]
fn bits_round_trip_every_mask() {
    for bits in 0u8..64 {
        let f = Faces::from_bits(bits).unwrap();
        assert_eq!(f.bits(), bits);
        let human = f.encode_human();
        assert_eq!(Faces::decode_human(&human), Ok(f));
    }
}

#[test]
fn bits_rejects_high_bits() {
    for bits in 64u8..=255 {
        assert_eq!(Faces::from_bits(bits), None);
    }
}

#[test]
fn canonical_bit_assignments() {
    assert_eq!(Faces::new(true, false, false, false, false, false).bits(), 1);
    assert_eq!(Faces::new(false, true, false, false, false, false).bits(), 2);
    assert_eq!(Faces::new(false, false, true, false, false, false).bits(), 4);
    assert_eq!(Faces::new(false, false, false, true, false, false).bits(), 8);
    assert_eq!(Faces::new(false, false, false, false, true, false).bits(), 16);
    assert_eq!(Faces::new(false, false, false, false, false, true).bits(), 32);
}

#[test]
fn contains_is_subset() {
    let right_top = Faces::new(true, true, false, false, false, false);
    let right = Faces::new(true, false, false, false, false, false);
    assert!(right_top.contains(right));
    assert!(!right.contains(right_top));
    assert!(Faces::all().contains(right_top));
    assert!(right.contains(Faces::empty()));
}

#[test]
fn display_string_lists_canonical_names() {
    assert_eq!(Faces::empty().to_display_string(), "Faces()");
    assert_eq!(
        Faces::new(true, false, false, false, false, false).to_display_string(),
        "Faces(Right)"
    );
    assert_eq!(
        Faces::new(true, true, false, false, true, false).to_display_string(),
        "Faces(Right, Top, Bottom)"
    );
    assert_eq!(
        Faces::all().to_display_string(),
        "Faces(Right, Top, Back, Left, Bottom, Front)"
    );
}
