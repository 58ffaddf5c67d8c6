use zip_header::{DecodeError, GeneralPurposeFlag};

fn flag(encrypted: bool, data_descriptor: bool) -> GeneralPurposeFlag {
    GeneralPurposeFlag { encrypted, data_descriptor }
}

#[test]
fn flag_round_trip_all_combinations() {
    for &(e, d) in &[(false, false), (true, false), (false, true), (true, true)] {
        let f = flag(e, d);
        assert_eq!(GeneralPurposeFlag::from_bytes(&f.to_slice()), Ok(f));
        assert_eq!(GeneralPurposeFlag::from(u16::from_le_bytes(f.to_slice())), f);
    }
}

#[test]
fn flag_encodes_to_two_bytes() {
    assert_eq!(flag(true, true).to_slice().len(), 2);
}

#[test]
fn encrypted_only_sets_bit_14() {
    let w = u16::from_le_bytes(flag(true, false).to_slice());
    assert_eq!(w, 0x4000);
    assert_eq!(flag(true, false).to_slice(), [0x00, 0x40]);
}

#[test]
fn data_descriptor_only_sets_bit_12() {
    let w = u16::from_le_bytes(flag(false, true).to_slice());
    assert_eq!(w, 0x1000);
    assert_eq!(flag(false, true).to_word(), 0x1000);
}

#[test]
fn both_flags_set_both_bits() {
    assert_eq!(flag(true, true).to_slice(), [0x00, 0x50]);
}

#[test]
fn no_flags_encode_to_zero() {
    assert_eq!(flag(false, false).to_slice(), [0x00, 0x00]);
    assert_eq!(flag(false, false).to_word(), 0);
}

#[test]
fn decode_ignores_extraneous_bits() {
    assert_eq!(GeneralPurposeFlag::from(0xFFFFu16), flag(true, true));
    assert_eq!(GeneralPurposeFlag::from_bytes(&[0xFF, 0xFF]), Ok(flag(true, true)));
    assert_eq!(GeneralPurposeFlag::from(0xAFFFu16), flag(false, false));
    assert_eq!(GeneralPurposeFlag::from(0x4001u16), flag(true, false));
}

#[test]
fn bit_15_is_not_encrypted() {
    assert_eq!(GeneralPurposeFlag::from(0x8000u16), flag(false, false));
}

#[test]
fn flag_decode_length_mismatch() {
    assert_eq!(
        GeneralPurposeFlag::from_bytes(&[0x00]),
        Err(DecodeError::LengthMismatch { expected: 2, found: 1 })
    );
    assert_eq!(
        GeneralPurposeFlag::from_bytes(&[0x00, 0x10, 0x00]),
        Err(DecodeError::LengthMismatch { expected: 2, found: 3 })
    );
}
