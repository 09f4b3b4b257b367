use hactool_rs::error::ParseError;
use hactool_rs::pfs0::{Pfs0, Pfs0Reader};

/// Builds a plain partition archive holding the given (name, data) pairs.
fn build_pfs0(files: &[(&str, &[u8])]) -> Vec<u8> {
    let mut string_table = Vec::new();
    let mut name_ptrs = Vec::new();
    for (name, _) in files {
        name_ptrs.push(string_table.len() as u32);
        string_table.extend_from_slice(name.as_bytes());
        string_table.push(0);
    }
    // pad the string table to a multiple of 0x10 as producers do
    while string_table.len() % 0x10 != 0 {
        string_table.push(0);
    }
    let mut out = Vec::new();
    out.extend_from_slice(&0x30534650u32.to_le_bytes()); // "PFS0"
    out.extend_from_slice(&(files.len() as u32).to_le_bytes());
    out.extend_from_slice(&(string_table.len() as u32).to_le_bytes());
    out.extend_from_slice(&[0u8; 4]);
    let mut rel = 0u64;
    for (i, (_, data)) in files.iter().enumerate() {
        out.extend_from_slice(&rel.to_le_bytes());
        out.extend_from_slice(&(data.len() as u64).to_le_bytes());
        out.extend_from_slice(&name_ptrs[i].to_le_bytes());
        out.extend_from_slice(&[0u8; 4]);
        rel += data.len() as u64;
    }
    out.extend_from_slice(&string_table);
    for (_, data) in files {
        out.extend_from_slice(data);
    }
    out
}

#[test]
fn decode_lists_names_in_disk_order() {
    let b = build_pfs0(&[("zzz.bin", b"xy"), ("a.txt", b"abcd"), ("m", b"")]);
    let reader = Pfs0Reader::new(b).unwrap();
    let names = reader.list_files();
    assert_eq!(names.len(), 3);
    assert_eq!(names[0], b"zzz.bin".to_vec());
    assert_eq!(names[1], b"a.txt".to_vec());
    assert_eq!(names[2], b"m".to_vec());
}

#[test]
fn read_returns_exactly_the_declared_bytes() {
    let payload_b: Vec<u8> = (0..=255u8).cycle().take(1024).collect();
    let b = build_pfs0(&[("a.txt", b"hej!"), ("b.bin", &payload_b)]);
    let reader = Pfs0Reader::new(b).unwrap();
    assert_eq!(reader.get_file_data(b"a.txt").unwrap(), b"hej!".to_vec());
    let data_b = reader.get_file_data(b"b.bin").unwrap();
    assert_eq!(data_b.len(), 1024);
    assert_eq!(data_b, payload_b);
    assert_eq!(
        reader.get_file_data(b"missing"),
        Err(ParseError::NotFound)
    );
}

#[test]
fn read_file_into_appends_chunked() {
    let payload: Vec<u8> = (0..0x2345).map(|i| (i % 251) as u8).collect();
    let b = build_pfs0(&[("big", &payload)]);
    let reader = Pfs0Reader::new(b).unwrap();
    let mut out = vec![9u8, 9u8];
    reader.read_file_into(b"big", &mut out).unwrap();
    assert_eq!(out.len(), 2 + payload.len());
    assert_eq!(&out[..2], &[9, 9]);
    assert_eq!(&out[2..], payload.as_slice());
    let mut untouched = vec![1u8];
    assert_eq!(
        reader.read_file_into(b"absent", &mut untouched),
        Err(ParseError::NotFound)
    );
    assert_eq!(untouched, vec![1u8]);
}


#[test]
fn decode_is_deterministic() {
    let b = build_pfs0(&[("x", b"1"), ("y", b"22")]);
    let p1 = Pfs0::decode(&b).unwrap();
    let p2 = Pfs0::decode(&b).unwrap();
    assert_eq!(p1, p2);
}

#[test]
fn bad_magic_is_format_mismatch() {
    let mut b = build_pfs0(&[("x", b"1")]);
    b[0] ^= 0xFF;
    assert_eq!(Pfs0::decode(&b), Err(ParseError::FormatMismatch));
}

#[test]
fn short_input_is_truncated() {
    assert_eq!(Pfs0::decode(&[0x50, 0x46]), Err(ParseError::TruncatedInput));
}

#[test]
fn oversized_file_range_is_out_of_bounds() {
    let mut b = build_pfs0(&[("x", b"1234")]);
    // inflate the first record's size beyond the backing bytes
    let size_off = 0x10 + 8;
    b[size_off..size_off + 8].copy_from_slice(&u64::MAX.to_le_bytes());
    assert_eq!(Pfs0::decode(&b), Err(ParseError::OutOfBounds));
}

#[test]
fn name_pointer_outside_buffer_is_out_of_bounds() {
    let mut b = build_pfs0(&[("x", b"1")]);
    let ptr_off = 0x10 + 16;
    b[ptr_off..ptr_off + 4].copy_from_slice(&0xFFFF_FFFFu32.to_le_bytes());
    assert_eq!(Pfs0::decode(&b), Err(ParseError::OutOfBounds));
}

#[test]
fn empty_archive_decodes() {
    let b = build_pfs0(&[]);
    let reader = Pfs0Reader::new(b).unwrap();
    assert!(reader.list_files().is_empty());
    assert_eq!(reader.get_file_data(b"anything"), Err(ParseError::NotFound));
}
