use aes::cipher::generic_array::GenericArray;
use aes::cipher::KeyInit;
use aes::Aes128;
use hactool_rs::error::ParseError;
use hactool_rs::keys::NcaKeys;
use hactool_rs::nca::{
    ContentType, DistributionType, EncryptionType, FsType, KeyGeneration, NcaFileCtx, NcaVersion,
    SdkAddonVersion, SuperBlock,
};
use xts_mode::Xts128;

/// Builds a plaintext full-size header: version-3 magic, zeroed reserved
/// window, and four sections whose filesystem type is in `fs_types`.
fn build_plain_header(fs_types: [u8; 4]) -> Vec<u8> {
    let mut b = vec![0u8; 0xC00];
    b[..0x100].fill(0x51); // signature
    b[0x100..0x200].fill(0x4D); // modulus
    b[0x200..0x204].copy_from_slice(&0x3341434Eu32.to_le_bytes()); // "NCA3"
    b[0x204] = 1; // gamecard
    b[0x205] = 0; // program
    b[0x206] = 2; // old key generation
    b[0x207] = 0; // application key area
    b[0x208..0x210].copy_from_slice(&0x4000u64.to_le_bytes()); // content size
    b[0x210..0x218].copy_from_slice(&0x0100_ABCD_0000_0000u64.to_le_bytes());
    b[0x218..0x21C].copy_from_slice(&3u32.to_le_bytes());
    b[0x21C..0x220].copy_from_slice(&0x0A0B0C0Du32.to_le_bytes()); // sdk version
    b[0x220] = 5;
    b[0x221] = 1;
    b[0x230..0x240].fill(0x77); // rights id
    // first section descriptor
    b[0x240..0x244].copy_from_slice(&0x10u32.to_le_bytes());
    b[0x244..0x248].copy_from_slice(&0x20u32.to_le_bytes());
    b[0x248..0x24C].copy_from_slice(&0x2u32.to_le_bytes());
    b[0x280..0x2A0].fill(0xA0); // first section hash
    b[0x300..0x340].fill(0x55); // encrypted key area
    for (i, ft) in fs_types.iter().enumerate() {
        let base = 0x400 + 0x200 * i;
        b[base + 2] = 1; // partition-fs flavour
        b[base + 3] = *ft;
        b[base + 4] = 1; // no section encryption
        if *ft == 2 {
            b[base + 8..base + 0x28].fill(0xC3); // master hash
            b[base + 0x28..base + 0x2C].copy_from_slice(&0x1000u32.to_le_bytes());
            b[base + 0x30..base + 0x38].copy_from_slice(&0x100u64.to_le_bytes());
            b[base + 0x38..base + 0x40].copy_from_slice(&0x200u64.to_le_bytes());
            b[base + 0x40..base + 0x48].copy_from_slice(&0x300u64.to_le_bytes());
            b[base + 0x48..base + 0x50].copy_from_slice(&0x1234u64.to_le_bytes());
        }
        b[base + 0x140..base + 0x148].copy_from_slice(&[1, 2, 3, 4, 5, 6, 7, 8]);
    }
    b
}

fn empty_keys() -> NcaKeys {
    NcaKeys::from_text("").unwrap()
}

fn keys_with_header_key(key: &[u8; 32]) -> NcaKeys {
    NcaKeys::from_text(&format!("header_key = {}\n", hex::encode(key))).unwrap()
}

#[test]
fn plaintext_header_parses_without_keys() {
    let b = build_plain_header([0, 2, 0, 0]);
    let ctx = NcaFileCtx::parse_header(&b, &empty_keys()).unwrap();
    assert_eq!(ctx.file_version, NcaVersion::Nca3);
    assert_eq!(ctx.distribution_type, DistributionType::GameCard);
    assert_eq!(ctx.content_type, ContentType::Program);
    assert_eq!(ctx.key_generation_old, KeyGeneration::OldThree);
    assert_eq!(ctx.key_generation, KeyGeneration::Five);
    assert_eq!(ctx.content_size, 0x4000);
    assert_eq!(ctx.program_id, 0x0100_ABCD_0000_0000);
    assert_eq!(ctx.content_index, 3);
    assert_eq!(ctx.signature, vec![0x51u8; 0x100]);
    assert_eq!(ctx.modulus, vec![0x4Du8; 0x100]);
    assert_eq!(ctx.rights_id, vec![0x77u8; 0x10]);
    assert_eq!(ctx.encrypted_key_area, vec![0x55u8; 0x40]);
    assert_eq!(ctx.section_entries.len(), 4);
    assert_eq!(ctx.section_entries[0].start_block_offset, 0x10);
    assert_eq!(ctx.section_entries[0].end_block_offset, 0x20);
    assert_eq!(ctx.section_entries[0].hash_sectors, 2);
    assert_eq!(ctx.section_hashes[0], vec![0xA0u8; 0x20]);
    assert_eq!(ctx.fs_headers.len(), 4);
    assert_eq!(ctx.fs_headers[0].fs_type, FsType::NoFs);
    assert_eq!(ctx.fs_headers[0].superblock, SuperBlock::NoFs);
    assert_eq!(ctx.fs_headers[0].encryption_type, EncryptionType::Plain);
    assert_eq!(ctx.fs_headers[0].section_ctr, vec![1, 2, 3, 4, 5, 6, 7, 8]);
    match &ctx.fs_headers[1].superblock {
        SuperBlock::Pfs0(sb) => {
            assert_eq!(sb.master_hash, vec![0xC3u8; 0x20]);
            assert_eq!(sb.block_size_bytes, 0x1000);
            assert_eq!(sb.hash_table_offset, 0x100);
            assert_eq!(sb.hash_table_size, 0x200);
            assert_eq!(sb.pfs0_offset, 0x300);
            assert_eq!(sb.pfs0_size, 0x1234);
        },
        other => panic!("expected a partition superblock, got {:?}", other),
    }
}

#[test]
fn short_header_form_is_accepted() {
    let b = build_plain_header([0, 0, 0, 0]);
    let ctx = NcaFileCtx::parse_header(&b[..0xA00], &empty_keys()).unwrap();
    assert_eq!(ctx.file_version, NcaVersion::Nca3);
    // the padded tail decodes as absent sections
    assert_eq!(ctx.fs_headers[3].fs_type, FsType::NoFs);
}

#[test]
fn other_lengths_are_truncated() {
    let b = build_plain_header([0, 0, 0, 0]);
    assert_eq!(
        NcaFileCtx::parse_header(&b[..0x900], &empty_keys()),
        Err(ParseError::TruncatedInput)
    );
}

#[test]
fn set_bit_in_reserved_window_forces_decryption() {
    let mut b = build_plain_header([0, 0, 0, 0]);
    b[0x340] = 0x01; // a single bit in the reserved window
    // the decrypt path now needs the header key, which is absent
    assert_eq!(
        NcaFileCtx::parse_header(&b, &empty_keys()),
        Err(ParseError::MissingKey)
    );
}

#[test]
fn unknown_magic_without_key_forces_decryption_path() {
    let mut b = build_plain_header([0, 0, 0, 0]);
    b[0x200..0x204].copy_from_slice(&0x3141434Eu32.to_le_bytes()); // "NCA1"
    assert_eq!(
        NcaFileCtx::parse_header(&b, &empty_keys()),
        Err(ParseError::MissingKey)
    );
}

#[test]
fn encrypted_header_round_trips_through_the_cipher() {
    let plain = build_plain_header([0, 2, 0, 0]);
    let expected = NcaFileCtx::parse_header(&plain, &empty_keys()).unwrap();

    let key: [u8; 32] = core::array::from_fn(|i| (i as u8).wrapping_mul(7).wrapping_add(3));
    let mut enc = plain.clone();
    let xts = Xts128::new(
        Aes128::new(GenericArray::from_slice(&key[..16])),
        Aes128::new(GenericArray::from_slice(&key[16..])),
    );
    xts.encrypt_area(&mut enc[0x200..], 0x200, 0, |i| i.to_be_bytes());

    // the scrambled buffer no longer looks like plaintext
    assert_eq!(
        NcaFileCtx::parse_header(&enc, &empty_keys()),
        Err(ParseError::MissingKey)
    );
    let ctx = NcaFileCtx::parse_header(&enc, &keys_with_header_key(&key)).unwrap();
    assert_eq!(ctx, expected);
    // a wrong header key decrypts to garbage, which fails the parse
    let mut wrong = key;
    wrong[0] ^= 1;
    assert!(NcaFileCtx::parse_header(&enc, &keys_with_header_key(&wrong)).is_err());
}

#[test]
fn unsupported_section_type_fails_loudly() {
    let b = build_plain_header([0, 3, 0, 0]); // a romfs section
    assert_eq!(
        NcaFileCtx::parse_header(&b, &empty_keys()),
        Err(ParseError::Unimplemented)
    );
}

#[test]
fn corrupt_advisory_enum_degrades_to_sentinel() {
    let mut b = build_plain_header([0, 0, 0, 0]);
    b[0x204] = 0x7F; // distribution type out of range
    b[0x205] = 0x7F; // content type out of range
    b[0x206] = 0x7F; // key generation out of range
    let ctx = NcaFileCtx::parse_header(&b, &empty_keys()).unwrap();
    assert_eq!(ctx.distribution_type, DistributionType::Invalid);
    assert_eq!(ctx.content_type, ContentType::Invalid);
    assert_eq!(ctx.key_generation_old, KeyGeneration::Invalid);
}

#[test]
fn sdk_version_components() {
    let v = SdkAddonVersion(0x0A0B0C0D);
    assert_eq!(v.major(), 0x0A);
    assert_eq!(v.minor(), 0x0B);
    assert_eq!(v.micro(), 0x0C);
    assert_eq!(v.revision(), 0x0D);
    assert_eq!(v.raw(), 0x0A0B0C0D);
}
