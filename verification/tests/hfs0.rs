use hactool_rs::error::ParseError;
use hactool_rs::hfs0::Hfs0;

/// Builds a hashed partition archive holding the given entries of
/// (name, data, hashed prefix length, prefix hash).
fn build_hfs0(files: &[(&str, &[u8], u32, [u8; 32])]) -> Vec<u8> {
    let mut string_table = Vec::new();
    let mut name_ptrs = Vec::new();
    for (name, _, _, _) in files {
        name_ptrs.push(string_table.len() as u32);
        string_table.extend_from_slice(name.as_bytes());
        string_table.push(0);
    }
    while string_table.len() % 0x10 != 0 {
        string_table.push(0);
    }
    let mut out = Vec::new();
    out.extend_from_slice(&0x30534648u32.to_le_bytes()); // "HFS0"
    out.extend_from_slice(&(files.len() as u32).to_le_bytes());
    out.extend_from_slice(&(string_table.len() as u32).to_le_bytes());
    out.extend_from_slice(&[0u8; 4]);
    let mut rel = 0u64;
    for (i, (_, data, prefix_len, hash)) in files.iter().enumerate() {
        out.extend_from_slice(&rel.to_le_bytes());
        out.extend_from_slice(&(data.len() as u64).to_le_bytes());
        out.extend_from_slice(&name_ptrs[i].to_le_bytes());
        out.extend_from_slice(&prefix_len.to_le_bytes());
        out.extend_from_slice(&[0u8; 8]);
        out.extend_from_slice(hash);
        rel += data.len() as u64;
    }
    out.extend_from_slice(&string_table);
    for (_, data, _, _) in files {
        out.extend_from_slice(data);
    }
    out
}

#[test]
fn decode_hashed_archive() {
    let hash_a = [0xAAu8; 32];
    let mut hash_b = [0u8; 32];
    hash_b[0] = 1;
    hash_b[31] = 2;
    let b = build_hfs0(&[
        ("update", b"payload-one", 11, hash_a),
        ("secure", b"payload-two-longer", 4, hash_b),
    ]);
    let h = Hfs0::decode(&b).unwrap();
    assert_eq!(h.files.len(), 2);
    assert_eq!(h.files[0].file_name, b"update".to_vec());
    assert_eq!(h.files[0].file_size, 11);
    assert_eq!(h.files[0].hashed_prefix_len, 11);
    assert_eq!(h.files[0].file_prefix_hash, hash_a.to_vec());
    assert_eq!(h.files[0].file_data, b"payload-one".to_vec());
    assert_eq!(h.files[1].file_name, b"secure".to_vec());
    assert_eq!(h.files[1].hashed_prefix_len, 4);
    assert_eq!(h.files[1].file_prefix_hash, hash_b.to_vec());
    assert_eq!(h.files[1].file_data, b"payload-two-longer".to_vec());
}

#[test]
fn hfs0_magic_is_checked() {
    let b = build_hfs0(&[("x", b"1", 1, [0u8; 32])]);
    let mut wrong = b.clone();
    wrong[3] = b'1';
    assert_eq!(Hfs0::decode(&wrong), Err(ParseError::FormatMismatch));
    // a plain-archive magic is also refused here
    wrong[0..4].copy_from_slice(&0x30534650u32.to_le_bytes());
    assert_eq!(Hfs0::decode(&wrong), Err(ParseError::FormatMismatch));
}

#[test]
fn hfs0_truncated_entry_table() {
    let b = build_hfs0(&[("x", b"1", 1, [0u8; 32])]);
    assert_eq!(Hfs0::decode(&b[..0x20]), Err(ParseError::OutOfBounds));
    assert_eq!(Hfs0::decode(&b[..0x8]), Err(ParseError::TruncatedInput));
}

#[test]
fn hfs0_decode_is_deterministic() {
    let b = build_hfs0(&[("x", b"12", 2, [7u8; 32])]);
    assert_eq!(Hfs0::decode(&b).unwrap(), Hfs0::decode(&b).unwrap());
}
