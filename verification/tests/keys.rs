use hactool_rs::error::ParseError;
use hactool_rs::keys::NcaKeys;

#[test]
fn unrecognized_name_is_ignored() {
    let keys = NcaKeys::from_text("foo = 0011223344\n").unwrap();
    // nothing was assigned: a known slot stays zeroed
    assert_eq!(keys.secure_boot_key, vec![0u8; 16]);
}

#[test]
fn recognized_name_with_wrong_length_errors() {
    // the same hex under a recognized name must be a hard error
    assert_eq!(
        NcaKeys::from_text("secure_boot_key = 0011223344\n"),
        Err(ParseError::KeyLengthMismatch)
    );
}

#[test]
fn recognized_name_with_odd_hex_errors() {
    assert_eq!(
        NcaKeys::from_text("secure_boot_key = 00112233445566778899aabbccddeef\n"),
        Err(ParseError::KeyLengthMismatch)
    );
}

#[test]
fn unrecognized_name_with_odd_hex_is_ignored() {
    assert!(NcaKeys::from_text("mystery_key = abc\n").is_ok());
}

#[test]
fn scalar_slot_is_assigned() {
    let keys =
        NcaKeys::from_text("secure_boot_key = 000102030405060708090a0b0c0d0e0f\n").unwrap();
    assert_eq!(
        keys.secure_boot_key,
        hex::decode("000102030405060708090a0b0c0d0e0f").unwrap()
    );
}

#[test]
fn header_key_slot_is_32_bytes() {
    let hex_key = "bd8a1287b2f4a1e2a73d4b4b1ea86ca5a22fb1b833b7ed7a89cdcb9da2f45b01";
    let keys = NcaKeys::from_text(&format!("header_key = {}\n", hex_key)).unwrap();
    assert_eq!(keys.header_key, hex::decode(hex_key).unwrap());
    // the 16-byte width is wrong for this slot
    assert_eq!(
        NcaKeys::from_text("header_key = 000102030405060708090a0b0c0d0e0f\n"),
        Err(ParseError::KeyLengthMismatch)
    );
}

#[test]
fn indexed_family_slots_are_assigned() {
    let text = "keyblob_key_05 = 101112131415161718191a1b1c1d1e1f\n\
                key_area_key_ocean_1f = 202122232425262728292a2b2c2d2e2f\n";
    let keys = NcaKeys::from_text(text).unwrap();
    assert_eq!(
        keys.keyblob_keys[5],
        hex::decode("101112131415161718191a1b1c1d1e1f").unwrap()
    );
    // ocean rows sit behind the 0x20 application rows
    assert_eq!(
        keys.key_area_keys[0x20 + 0x1f],
        hex::decode("202122232425262728292a2b2c2d2e2f").unwrap()
    );
    assert_eq!(keys.keyblob_keys[4], vec![0u8; 16]);
}

#[test]
fn family_index_out_of_range_is_ignored() {
    // the class-key family has only 0xC slots
    let keys =
        NcaKeys::from_text("mariko_aes_class_key_0c = 000102030405060708090a0b0c0d0e0f\n")
            .unwrap();
    for row in &keys.mariko_aes_class_keys {
        assert_eq!(row, &vec![0u8; 16]);
    }
}

#[test]
fn last_assignment_wins() {
    let text = "tsec_key = 000102030405060708090a0b0c0d0e0f\n\
                tsec_key = ffeeddccbbaa99887766554433221100\n";
    let keys = NcaKeys::from_text(text).unwrap();
    assert_eq!(
        keys.tsec_key,
        hex::decode("ffeeddccbbaa99887766554433221100").unwrap()
    );
}

#[test]
fn comments_and_malformed_lines_are_skipped() {
    let text = "# a comment line\n\
                \n\
                not a key line at all!\n\
                tsec_key=missing spaces\n\
                device_key = 0f0e0d0c0b0a09080706050403020100\n";
    let keys = NcaKeys::from_text(text).unwrap();
    assert_eq!(
        keys.device_key,
        hex::decode("0f0e0d0c0b0a09080706050403020100").unwrap()
    );
    assert_eq!(keys.tsec_key, vec![0u8; 16]);
}

#[test]
fn trailing_junk_after_hex_is_tolerated_when_length_fits() {
    // the hex run ends at the first non-hex character; what follows is
    // ignored, as a pattern match on the line's prefix would do
    let keys = NcaKeys::from_text(
        "mariko_kek = 000102030405060708090a0b0c0d0e0f ; device unique\n",
    )
    .unwrap();
    assert_eq!(
        keys.mariko_kek,
        hex::decode("000102030405060708090a0b0c0d0e0f").unwrap()
    );
}

#[test]
fn modulus_slot_takes_256_bytes() {
    let modulus_hex = "ab".repeat(0x100);
    let keys =
        NcaKeys::from_text(&format!("acid_fixed_key_modulus_00 = {}\n", modulus_hex)).unwrap();
    assert_eq!(keys.acid_fixed_key_moduli[0], vec![0xabu8; 0x100]);
    assert_eq!(keys.acid_fixed_key_moduli[1], vec![0u8; 0x100]);
}

#[test]
fn new_store_is_zeroed() {
    let keys = NcaKeys::from_text("").unwrap();
    assert_eq!(keys.header_key, vec![0u8; 32]);
    assert_eq!(keys.master_keys.len(), 0x20);
    assert_eq!(keys.master_keys[0x1f], vec![0u8; 16]);
    assert_eq!(keys.package2_fixed_key_modulus, vec![0u8; 0x100]);
}
