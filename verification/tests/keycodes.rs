//! The virtual key-code lookup: exact values, the codes it leaves
//! unrecognized, and the signed variant.

use tub::event::VKeyCode;

#[test]
fn letters_and_digits_resolve() {
    assert_eq!(VKeyCode::from_u64(0x41), Some(VKeyCode::A));
    assert_eq!(VKeyCode::from_u64(0x5A), Some(VKeyCode::Z));
    assert_eq!(VKeyCode::from_u64(0x30), Some(VKeyCode::Key0));
    assert_eq!(VKeyCode::from_u64(0x39), Some(VKeyCode::Key9));
}

#[test]
fn named_keys_resolve() {
    assert_eq!(VKeyCode::from_u64(0x08), Some(VKeyCode::Back));
    assert_eq!(VKeyCode::from_u64(0x0D), Some(VKeyCode::Enter));
    assert_eq!(VKeyCode::from_u64(0x1B), Some(VKeyCode::Escape));
    assert_eq!(VKeyCode::from_u64(0x20), Some(VKeyCode::Space));
    assert_eq!(VKeyCode::from_u64(0x70), Some(VKeyCode::F1));
    assert_eq!(VKeyCode::from_u64(0x87), Some(VKeyCode::F24));
    assert_eq!(VKeyCode::from_u64(0x25), Some(VKeyCode::LArrow));
    assert_eq!(VKeyCode::from_u64(0xA0), Some(VKeyCode::LShift));
    assert_eq!(VKeyCode::from_u64(0xDE), Some(VKeyCode::Quote));
    assert_eq!(VKeyCode::from_u64(0x1C), Some(VKeyCode::Convert));
}

#[test]
fn unassigned_codes_do_not_resolve() {
    assert_eq!(VKeyCode::from_u64(0x00), None);
    assert_eq!(VKeyCode::from_u64(0x07), None);
    assert_eq!(VKeyCode::from_u64(0xFF), None);
    assert_eq!(VKeyCode::from_u64(u64::MAX), None);
}

#[test]
fn undirected_modifier_codes_are_left_unrecognized() {
    // The platform reports these codes, but the lookup leaves them out so
    // that key events carry the directed variants instead.
    assert_eq!(VKeyCode::from_u64(0x10), None);  // undirected shift
    assert_eq!(VKeyCode::from_u64(0x11), None);  // undirected control
    assert_eq!(VKeyCode::from_u64(0x12), None);  // undirected menu
    assert_eq!(VKeyCode::from_u64(0xE5), None);  // IME process
}

#[test]
fn signed_lookup_rejects_negatives() {
    assert_eq!(VKeyCode::from_i64(-1), None);
    assert_eq!(VKeyCode::from_i64(i64::MIN), None);
    assert_eq!(VKeyCode::from_i64(0x41), Some(VKeyCode::A));
}
