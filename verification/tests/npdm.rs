use hactool_rs::caps::{decode_kernel_capabilities, KernelCapability};
use hactool_rs::error::ParseError;
use hactool_rs::npdm::{Aci0, Aci0FsAccessControlRecord, Acid, FsAccessFlags, NpdmFile};

fn words(ws: &[u32]) -> Vec<u8> {
    let mut out = Vec::new();
    for w in ws {
        out.extend_from_slice(&w.to_le_bytes());
    }
    out
}

#[test]
fn three_trailing_ones_is_thread_info() {
    let caps = decode_kernel_capabilities(&words(&[0x7])).unwrap();
    assert_eq!(caps.len(), 1);
    match caps[0] {
        KernelCapability::ThreadInfo(ti) => assert_eq!(ti.raw(), 0x7),
        _ => panic!("expected a thread-info record"),
    }
}

#[test]
fn paired_words_become_one_memory_map() {
    // both words carry exactly six trailing ones
    let caps = decode_kernel_capabilities(&words(&[0x3F, 0xBF])).unwrap();
    assert_eq!(caps.len(), 1);
    match caps[0] {
        KernelCapability::MemoryMap(a, s) => {
            assert_eq!(a.raw(), 0x3F);
            assert_eq!(s.raw(), 0xBF);
        },
        _ => panic!("expected a memory-map record"),
    }
}

#[test]
fn unpaired_memory_map_word_is_a_mismatch() {
    assert_eq!(
        decode_kernel_capabilities(&words(&[0x3F, 0x7])),
        Err(ParseError::PairedRecordMismatch)
    );
}

#[test]
fn lone_memory_map_word_is_truncated() {
    assert_eq!(
        decode_kernel_capabilities(&words(&[0x3F])),
        Err(ParseError::TruncatedInput)
    );
}

#[test]
fn unknown_trailing_count_is_preserved_verbatim() {
    let caps = decode_kernel_capabilities(&words(&[0x0, 0xF])).unwrap();
    assert_eq!(caps.len(), 2);
    assert!(matches!(caps[0], KernelCapability::Invalid(0)));
    assert!(matches!(caps[1], KernelCapability::EnableSystemCalls(_)));
}

#[test]
fn partial_final_word_is_truncated() {
    assert_eq!(
        decode_kernel_capabilities(&[0x07, 0x00, 0x00]),
        Err(ParseError::TruncatedInput)
    );
}

/// Builds a permission-record blob; table offsets are relative to its
/// start, which the caller places at `base` inside a larger file.
fn build_aci0(title_id: u64, services: &[u8], caps: &[u8]) -> Vec<u8> {
    let mut out = vec![0u8; 0x40];
    out[0..4].copy_from_slice(&0x30494341u32.to_le_bytes()); // "ACI0"
    out[0x10..0x18].copy_from_slice(&title_id.to_le_bytes());
    out[0x20..0x24].copy_from_slice(&0u32.to_le_bytes()); // fah offset
    out[0x24..0x28].copy_from_slice(&0u32.to_le_bytes()); // fah size
    let svc_off = out.len() as u32;
    out.extend_from_slice(services);
    let kc_off = out.len() as u32;
    out.extend_from_slice(caps);
    out[0x28..0x2C].copy_from_slice(&svc_off.to_le_bytes());
    out[0x2C..0x30].copy_from_slice(&(services.len() as u32).to_le_bytes());
    out[0x30..0x34].copy_from_slice(&kc_off.to_le_bytes());
    out[0x34..0x38].copy_from_slice(&(caps.len() as u32).to_le_bytes());
    out
}

/// Builds a certificate blob with a given signature, modulus and tables.
fn build_acid(
    signature: &[u8],
    modulus: &[u8],
    fac: &[u8],
    services: &[u8],
    caps: &[u8],
) -> Vec<u8> {
    let mut out = vec![0u8; 0x240];
    out[..signature.len()].copy_from_slice(signature);
    out[0x200 - modulus.len()..0x200].copy_from_slice(modulus);
    out[0x200..0x204].copy_from_slice(&0x44494341u32.to_le_bytes()); // "ACID"
    out[0x204..0x208].copy_from_slice(&0x240u32.to_le_bytes());
    out[0x208] = 1; // version
    out[0x20C..0x210].copy_from_slice(&0x1u32.to_le_bytes()); // production flag
    out[0x210..0x218].copy_from_slice(&0x0100_0000_0000_1000u64.to_le_bytes());
    out[0x218..0x220].copy_from_slice(&0x0100_0000_0000_2000u64.to_le_bytes());
    let fac_off = out.len() as u32;
    out.extend_from_slice(fac);
    let svc_off = out.len() as u32;
    out.extend_from_slice(services);
    let kc_off = out.len() as u32;
    out.extend_from_slice(caps);
    out[0x220..0x224].copy_from_slice(&fac_off.to_le_bytes());
    out[0x224..0x228].copy_from_slice(&(fac.len() as u32).to_le_bytes());
    out[0x228..0x22C].copy_from_slice(&svc_off.to_le_bytes());
    out[0x22C..0x230].copy_from_slice(&(services.len() as u32).to_le_bytes());
    out[0x230..0x234].copy_from_slice(&kc_off.to_le_bytes());
    out[0x234..0x238].copy_from_slice(&(caps.len() as u32).to_le_bytes());
    out
}

/// Builds a whole program-metadata file around the two blobs.
fn build_npdm(sign_key_index: u32, aci0: &[u8], acid: &[u8]) -> Vec<u8> {
    let mut out = vec![0u8; 0x80];
    out[0..4].copy_from_slice(&0x4154454Du32.to_le_bytes()); // "META"
    out[4..8].copy_from_slice(&sign_key_index.to_le_bytes());
    out[0xC] = 0x01; // 64-bit flag
    out[0xE] = 44; // main thread priority
    out[0xF] = 2; // default cpu core
    out[0x14..0x18].copy_from_slice(&0u32.to_le_bytes());
    out[0x18..0x1C].copy_from_slice(&0x0Bu32.to_le_bytes());
    out[0x1C..0x20].copy_from_slice(&0x10000u32.to_le_bytes());
    out[0x20..0x2B].copy_from_slice(b"application");
    out[0x30..0x34].copy_from_slice(b"PROD");
    let aci0_ptr = out.len() as u32;
    out.extend_from_slice(aci0);
    let acid_ptr = out.len() as u32;
    out.extend_from_slice(acid);
    out[0x70..0x74].copy_from_slice(&aci0_ptr.to_le_bytes());
    out[0x74..0x78].copy_from_slice(&(aci0.len() as u32).to_le_bytes());
    out[0x78..0x7C].copy_from_slice(&acid_ptr.to_le_bytes());
    out[0x7C..0x80].copy_from_slice(&(acid.len() as u32).to_le_bytes());
    out
}

fn service_buffer() -> Vec<u8> {
    let mut svc = Vec::new();
    svc.push(0x83); // length 3, server bit set
    svc.extend_from_slice(b"fsp");
    svc.push(0x04); // length 4, client
    svc.extend_from_slice(b"ncm:");
    svc
}

#[test]
fn npdm_end_to_end_decodes_both_containers() {
    let caps = words(&[0x7, 0x3F, 0xBF]);
    let aci0 = build_aci0(0x0100_0000_0000_1234, &service_buffer(), &caps);
    let acid = build_acid(&[0u8; 0x100], &[0xEEu8; 0x100], &[], &service_buffer(), &caps);
    let file = build_npdm(0, &aci0, &acid);
    let npdm = NpdmFile::decode(&file).unwrap();
    assert_eq!(npdm.acid_sign_key_index, 0);
    assert_eq!(npdm.main_thread_priority, 44);
    assert_eq!(npdm.default_cpu_core, 2);
    assert!(npdm.flags.is_64bit());
    assert_eq!(&npdm.title_name[..11], b"application");
    assert_eq!(npdm.aci0.title_id, 0x0100_0000_0000_1234);
    assert_eq!(npdm.aci0.services.len(), 2);
    assert_eq!(npdm.aci0.services[0].service_name, b"fsp".to_vec());
    assert!(npdm.aci0.services[0].header.is_server());
    assert_eq!(npdm.aci0.services[0].header.len(), 3);
    assert_eq!(npdm.aci0.services[1].service_name, b"ncm:".to_vec());
    assert!(!npdm.aci0.services[1].header.is_server());
    assert_eq!(npdm.aci0.kernel_capabilities.len(), 2);
    assert_eq!(npdm.acid.title_id_range_min, 0x0100_0000_0000_1000);
    assert_eq!(npdm.acid.title_id_range_max, 0x0100_0000_0000_2000);
    assert_eq!(npdm.acid.modulus, vec![0xEEu8; 0x100]);
    assert!(npdm.acid.flags.is_production());
    assert_eq!(npdm.acid.services.len(), 2);
    assert_eq!(npdm.acid.kernel_capabilities.len(), 2);
    // decoding is deterministic
    assert_eq!(npdm, NpdmFile::decode(&file).unwrap());
}

#[test]
fn truncated_service_record_fails_the_container() {
    let bad_svc = vec![0x05, b'a']; // declares five name bytes, has one
    let aci0 = build_aci0(1, &bad_svc, &[]);
    let acid = build_acid(&[0u8; 0x100], &[0xEEu8; 0x100], &[], &[], &[]);
    let file = build_npdm(0, &aci0, &acid);
    assert_eq!(NpdmFile::decode(&file), Err(ParseError::TruncatedInput));
}

#[test]
fn unpaired_capability_fails_the_container() {
    let caps = words(&[0x3F, 0x7]);
    let aci0 = build_aci0(1, &[], &caps);
    let acid = build_acid(&[0u8; 0x100], &[0xEEu8; 0x100], &[], &[], &[]);
    let file = build_npdm(0, &aci0, &acid);
    assert_eq!(NpdmFile::decode(&file), Err(ParseError::PairedRecordMismatch));
}

#[test]
fn aci0_magic_is_checked() {
    let mut aci0 = build_aci0(1, &[], &[]);
    aci0[0] = b'X';
    let acid = build_acid(&[0u8; 0x100], &[0xEEu8; 0x100], &[], &[], &[]);
    let file = build_npdm(0, &aci0, &acid);
    assert_eq!(NpdmFile::decode(&file), Err(ParseError::FormatMismatch));
}

#[test]
fn acid_table_outside_blob_is_out_of_bounds() {
    let aci0 = build_aci0(1, &[], &[]);
    let mut acid = build_acid(&[0u8; 0x100], &[0xEEu8; 0x100], &[], &[], &[]);
    // push the service table past the end of the certificate blob
    acid[0x228..0x22C].copy_from_slice(&0xFFFF_0000u32.to_le_bytes());
    acid[0x22C..0x230].copy_from_slice(&8u32.to_le_bytes());
    let file = build_npdm(0, &aci0, &acid);
    assert_eq!(NpdmFile::decode(&file), Err(ParseError::OutOfBounds));
}

#[test]
fn acid_fac_records_decode() {
    let mut fac = Vec::new();
    fac.push(1u8); // version
    fac.push(2u8); // two content-owner ids
    fac.push(1u8); // one save-data-owner id
    fac.push(0u8);
    fac.extend_from_slice(&((1u64 << 63) | 0b1_0001u64).to_le_bytes()); // flags
    fac.extend_from_slice(&0x10u64.to_le_bytes());
    fac.extend_from_slice(&0x20u64.to_le_bytes());
    fac.extend_from_slice(&0x30u64.to_le_bytes());
    fac.extend_from_slice(&0x40u64.to_le_bytes());
    fac.extend_from_slice(&0xAAAAu64.to_le_bytes());
    fac.extend_from_slice(&0xBBBBu64.to_le_bytes());
    fac.extend_from_slice(&0xCCCCu64.to_le_bytes());
    let acid = build_acid(&[0u8; 0x100], &[0xEEu8; 0x100], &fac, &[], &[]);
    let a = Acid::decode(&acid).unwrap();
    assert_eq!(a.file_access_control_entries.len(), 1);
    let rec = &a.file_access_control_entries[0];
    assert_eq!(rec.version, 1);
    assert_eq!(rec.content_owner_id_count, 2);
    assert_eq!(rec.save_data_owner_id_count, 1);
    assert!(rec.access_flags.application_info());
    assert!(rec.access_flags.game_card());
    assert!(rec.access_flags.full_permission());
    assert!(!rec.access_flags.debug());
    assert!(!rec.access_flags.boot_mode_control());
    assert_eq!(rec.content_owner_id_min, 0x10);
    assert_eq!(rec.content_owner_id_max, 0x20);
    assert_eq!(rec.save_data_owner_min, 0x30);
    assert_eq!(rec.save_data_owner_max, 0x40);
    assert_eq!(rec.content_owner_ids, vec![0xAAAA, 0xBBBB]);
    assert_eq!(rec.save_data_owner_ids, vec![0xCCCC]);
}

#[test]
fn partially_consumed_fac_record_is_truncated() {
    let mut fac = vec![0u8; 0x2C];
    fac[1] = 4; // claims four content-owner ids that are not there
    let acid = build_acid(&[0u8; 0x100], &[0xEEu8; 0x100], &fac, &[], &[]);
    assert_eq!(Acid::decode(&acid), Err(ParseError::TruncatedInput));
}

#[test]
fn standalone_aci0_fac_record_decodes() {
    // short form: the content-owner table starts right behind the header
    let mut b = vec![0u8; 0x1C];
    b[0] = 3; // version
    b[4..12].copy_from_slice(&0b110u64.to_le_bytes());
    b[0xC..0x10].copy_from_slice(&0x1Cu32.to_le_bytes()); // content ids at 0x1C
    b[0x10..0x14].copy_from_slice(&0x8u32.to_le_bytes());
    b[0x14..0x18].copy_from_slice(&0x24u32.to_le_bytes()); // save ids at 0x24
    b[0x18..0x1C].copy_from_slice(&0x8u32.to_le_bytes());
    b.extend_from_slice(&0x1111u64.to_le_bytes());
    b.extend_from_slice(&0x2222u64.to_le_bytes());
    let rec = Aci0FsAccessControlRecord::decode(&b, 0).unwrap();
    assert_eq!(rec.version, 3);
    assert!(rec.access_flags.boot_mode_control());
    assert!(rec.access_flags.calibration());
    assert!(!rec.access_flags.application_info());
    assert_eq!(rec.content_owner_ids, vec![0x1111]);
    assert_eq!(rec.save_data_owner_ids, vec![0x2222]);
    assert_eq!(rec.save_data_owner_id_count, None);
}

#[test]
fn aci0_standalone_decode_checks_bounds() {
    let b = vec![0u8; 0x10];
    assert_eq!(
        Aci0FsAccessControlRecord::decode(&b, 0),
        Err(ParseError::TruncatedInput)
    );
    let mut c = vec![0u8; 0x1C];
    c[0xC..0x10].copy_from_slice(&0x1Cu32.to_le_bytes());
    c[0x10..0x14].copy_from_slice(&0x10u32.to_le_bytes()); // ids run past the end
    assert_eq!(
        Aci0FsAccessControlRecord::decode(&c, 0),
        Err(ParseError::OutOfBounds)
    );
}

#[test]
fn aci0_decode_at_nonzero_base() {
    let inner = build_aci0(7, &service_buffer(), &[]);
    let mut file = vec![0u8; 0x30];
    file.extend_from_slice(&inner);
    let a = Aci0::decode(&file, 0x30).unwrap();
    assert_eq!(a.title_id, 7);
    assert_eq!(a.services.len(), 2);
}

#[test]
fn fs_access_flags_bits() {
    let f = FsAccessFlags((1 << 21) | (1 << 36) | (1 << 62));
    assert!(f.sd_card());
    assert!(f.move_cache_storage());
    assert!(f.debug());
    assert!(!f.full_permission());
    assert!(!f.host());
    assert_eq!(f.raw(), (1 << 21) | (1 << 36) | (1 << 62));
}

#[test]
fn capability_payload_fields_decode() {
    // priorities 4..=9, cores 16..=23 and 24..=31
    let w: u32 = (44 << 4) | (28 << 10) | (0 << 16) | (3 << 24) | 0b0111;
    let caps = decode_kernel_capabilities(&words(&[w])).unwrap();
    match caps[0] {
        KernelCapability::ThreadInfo(ti) => {
            assert_eq!(ti.lowest_thread_priority(), 44);
            assert_eq!(ti.highest_thread_priority(), 28);
            assert_eq!(ti.lowest_cpu_id(), 0);
            assert_eq!(ti.highest_cpu_id(), 3);
        },
        _ => panic!("expected a thread-info record"),
    }

    let irq: u32 = (0x11 << 12) | (0x22 << 22) | 0b0111_1111_1111;
    let caps = decode_kernel_capabilities(&words(&[irq])).unwrap();
    match caps[0] {
        KernelCapability::EnableInterrupts(i) => {
            assert_eq!(i.irq1(), 0x11);
            assert_eq!(i.irq2(), 0x22);
        },
        _ => panic!("expected an interrupt record"),
    }

    let kv: u32 = (9 << 15) | (3 << 19) | 0b0011_1111_1111_1111;
    let caps = decode_kernel_capabilities(&words(&[kv])).unwrap();
    match caps[0] {
        KernelCapability::KernelVersion(v) => {
            assert_eq!(v.minor_version(), 9);
            assert_eq!(v.major_version(), 3);
        },
        _ => panic!("expected a kernel-version record"),
    }
}
