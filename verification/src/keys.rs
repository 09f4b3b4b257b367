//! The console key store: fixed-width named key slots populated from a
//! textual `name = hex` key file.
//!
//! Slots start out zeroed; whether an all-zero slot is "absent" or
//! "present but zero" is the caller's knowledge of which slots an
//! operation needs.  The store never derives keys from seeds: it holds
//! exactly what the file said, verbatim.  The derivation schedule
//! (master keks, titlekeks, key-area keys from their sources) is a
//! deliberate stub boundary, not part of this store.
//!
//! A line of the key file assigns a slot when it has the shape
//! `name = hex` (one space on each side of the equals sign), the name is
//! recognized, and the hex digits decode to exactly the slot's width.
//! Unrecognized names are ignored for forward compatibility; a
//! recognized name with the wrong hex length is a hard error.  Later
//! lines overwrite earlier ones.

use vstd::prelude::*;
use vstd::slice::slice_to_vec;
use vstd::string::{StrSliceExecFns, StringExecFns};
use crate::error::ParseError;
use crate::hexstr::{hex_decode, spec_hex_decode, spec_hex_val};

verus! {

/// Which operator-controlled key set a signature is checked against.
#[derive(Debug, Clone, Copy, PartialEq, Eq, Structural)]
pub enum KeysetType {
    Dev,
    Retail,
}

/// The fixed public moduli the permission-certificate signature is
/// verified against: one table of two 256-byte moduli per key set.
#[derive(Debug, PartialEq, Eq)]
pub struct AcidModuli {
    /// The two retail signing moduli, indexed by the certificate's
    /// signing-key index.
    pub retail: Vec<Vec<u8>>,
    /// The two development signing moduli.
    pub dev: Vec<Vec<u8>>,
}

impl AcidModuli {
    /// Each table holds exactly the two key-index entries.
    pub open spec fn wf(self) -> bool {
        &&& self.retail@.len() == 2
        &&& self.dev@.len() == 2
    }
}

/// The modulus selected by key-set type and signing-key index.
pub open spec fn spec_acid_modulus(m: AcidModuli, kt: KeysetType, idx: int) -> Seq<u8> {
    match kt {
        KeysetType::Retail => m.retail@[idx]@,
        KeysetType::Dev => m.dev@[idx]@,
    }
}

/// `n` zero bytes.
pub open spec fn zero_seq(n: int) -> Seq<u8> {
    Seq::new(n as nat, |i: int| 0u8)
}

/// A vector of `n` zero bytes.
fn zero_bytes(n: usize) -> (r: Vec<u8>)
    ensures
        r@ == zero_seq(n as int),
{
    let mut v: Vec<u8> = Vec::new();
    let mut i: usize = 0;
    while i < n
        invariant
            i <= n,
            v@.len() == i,
            forall|j: int| 0 <= j < i ==> v@[j] == 0,
        decreases n - i,
    {
        v.push(0);
        i += 1;
    }
    proof {
        assert(v@ =~= zero_seq(n as int));
    }
    v
}

/// `count` rows of `width` zero bytes each.
fn zero_rows(count: usize, width: usize) -> (r: Vec<Vec<u8>>)
    ensures
        r@.len() == count,
        forall|i: int| 0 <= i < count ==> (#[trigger] r@[i])@ == zero_seq(width as int),
{
    let mut v: Vec<Vec<u8>> = Vec::new();
    let mut i: usize = 0;
    while i < count
        invariant
            i <= count,
            v@.len() == i,
            forall|j: int| 0 <= j < i ==> (#[trigger] v@[j])@ == zero_seq(width as int),
        decreases count - i,
    {
        v.push(zero_bytes(width));
        i += 1;
    }
    v
}

/// String equality by character content.
fn str_eq(a: &str, b: &str) -> (r: bool)
    ensures
        r == (a@ == b@),
{
    let sa = String::from_str(a);
    let sb = String::from_str(b);
    sa == sb
}

/// A fresh copy of a byte vector.
fn clone_bytes(v: &Vec<u8>) -> (r: Vec<u8>)
    ensures
        r@ == v@,
{
    slice_to_vec(v.as_slice())
}

/// The value of a lower-case hexadecimal digit, as the numeric key-file
/// suffixes use.
pub open spec fn spec_lower_hex_val(c: char) -> Option<int> {
    let v = c as u32;
    if 0x30 <= v && v <= 0x39 {
        Some((v - 0x30) as int)
    } else if 0x61 <= v && v <= 0x66 {
        Some((v - 0x61 + 10) as int)
    } else {
        None
    }
}

/// The slot index encoded by an indexed key name: the fixed prefix
/// followed by exactly two lower-case hex digits whose value is below
/// the family's slot count.
pub open spec fn spec_family_index(name: Seq<char>, prefix: Seq<char>, count: int) -> Option<
    int,
> {
    if name.len() == prefix.len() + 2 && name.take(prefix.len() as int) == prefix {
        match (
            spec_lower_hex_val(name[prefix.len() as int]),
            spec_lower_hex_val(name[prefix.len() as int + 1]),
        ) {
            (Some(h), Some(l)) => {
                let v = 16 * h + l;
                if v < count {
                    Some(v)
                } else {
                    None
                }
            },
            _ => None,
        }
    } else {
        None
    }
}

/// The value of a lower-case hexadecimal digit character.
fn lower_hex_val(c: char) -> (r: Option<u8>)
    ensures
        match r {
            Some(v) => spec_lower_hex_val(c) == Some(v as int),
            None => spec_lower_hex_val(c) is None,
        },
{
    let v = c as u32;
    if 0x30 <= v && v <= 0x39 {
        Some((v - 0x30) as u8)
    } else if 0x61 <= v && v <= 0x66 {
        Some((v - 0x61 + 10) as u8)
    } else {
        None
    }
}

/// Two characters with the same lower-case hex digit value are the same
/// character.
proof fn lemma_lower_hex_val_injective(c1: char, c2: char)
    requires
        spec_lower_hex_val(c1) is Some,
        spec_lower_hex_val(c1) == spec_lower_hex_val(c2),
    ensures
        c1 == c2,
{
    assert(c1 as u32 == c2 as u32);
}

/// Two names that encode the same slot index of the same family are the
/// same name.
proof fn lemma_family_index_injective(n1: Seq<char>, n2: Seq<char>, prefix: Seq<char>, count: int)
    requires
        spec_family_index(n1, prefix, count) is Some,
        spec_family_index(n1, prefix, count) == spec_family_index(n2, prefix, count),
    ensures
        n1 == n2,
{
    let pl = prefix.len() as int;
    let h1 = spec_lower_hex_val(n1[pl]).unwrap();
    let l1 = spec_lower_hex_val(n1[pl + 1]).unwrap();
    let h2 = spec_lower_hex_val(n2[pl]).unwrap();
    let l2 = spec_lower_hex_val(n2[pl + 1]).unwrap();
    assert(0 <= h1 < 16 && 0 <= l1 < 16 && 0 <= h2 < 16 && 0 <= l2 < 16);
    assert(16 * h1 + l1 == 16 * h2 + l2);
    assert(h1 == h2 && l1 == l2);
    lemma_lower_hex_val_injective(n1[pl], n2[pl]);
    lemma_lower_hex_val_injective(n1[pl + 1], n2[pl + 1]);
    assert forall|i: int| 0 <= i < n1.len() implies n1[i] == n2[i] by {
        if i < pl {
            assert(n1.take(pl)[i] == prefix[i]);
            assert(n2.take(pl)[i] == prefix[i]);
        }
    }
    assert(n1 =~= n2);
}

/// Extracts the slot index of an indexed key name.
fn family_index(name: &str, prefix: &str, count: usize) -> (r: Option<usize>)
    requires
        count <= 0x100,
    ensures
        match r {
            Some(i) => spec_family_index(name@, prefix@, count as int) == Some(i as int)
                && i < count,
            None => spec_family_index(name@, prefix@, count as int) is None,
        },
{
    let nl = name.unicode_len();
    let pl = prefix.unicode_len();
    if nl < 2 || nl - 2 != pl {
        return None;
    }
    let head = name.substring_char(0, pl);
    if !str_eq(head, prefix) {
        proof {
            assert(name@.take(pl as int) != prefix@);
        }
        return None;
    }
    let h = match lower_hex_val(name.get_char(pl)) {
        Some(v) => v,
        None => {
            return None;
        },
    };
    let l = match lower_hex_val(name.get_char(pl + 1)) {
        Some(v) => v,
        None => {
            return None;
        },
    };
    let v = 16 * (h as usize) + (l as usize);
    if v < count {
        Some(v)
    } else {
        None
    }
}

/// The console key store.  Every slot is a byte vector of its fixed
/// width; multi-slot families are vectors of rows.  The three key-area
/// tables share one row vector, application rows first, then ocean,
/// then system.
#[derive(Debug, PartialEq, Eq)]
pub struct NcaKeys {
    /// Secure-boot key used in key derivation; unique per console.
    pub secure_boot_key: Vec<u8>,
    /// Security-engine key used in key derivation; unique per console.
    pub tsec_key: Vec<u8>,
    /// Device key used to derive some filesystem keys; unique per console.
    pub device_key: Vec<u8>,
    /// Key-encryption key of the later hardware revision.
    pub mariko_kek: Vec<u8>,
    /// Boot-encryption key of the later hardware revision.
    pub mariko_bek: Vec<u8>,
    /// Seed for keyblob MAC key derivation.
    pub keyblob_mac_key_source: Vec<u8>,
    /// Used to generate security-engine root keys.
    pub tsec_root_kek: Vec<u8>,
    /// Used to generate first-stage-loader MAC keys.
    pub package1_mac_kek: Vec<u8>,
    /// Used to generate first-stage-loader keys.
    pub package1_kek: Vec<u8>,
    /// Seed for master-key derivation.
    pub master_key_source: Vec<u8>,
    /// Seed for the second-stage-package key.
    pub package2_key_source: Vec<u8>,
    /// Seed for the device key.
    pub per_console_key_source: Vec<u8>,
    /// Seed for key-encryption-key generation.
    pub aes_kek_generation_source: Vec<u8>,
    /// Seed for key generation.
    pub aes_key_generation_source: Vec<u8>,
    /// Seed for the application key-area table.
    pub key_area_key_application_source: Vec<u8>,
    /// Seed for the ocean key-area table.
    pub key_area_key_ocean_source: Vec<u8>,
    /// Seed for the system key-area table.
    pub key_area_key_system_source: Vec<u8>,
    /// Seed for title key-encryption keys.
    pub titlekek_source: Vec<u8>,
    /// Seed for the header key-encryption key.
    pub header_kek_source: Vec<u8>,
    /// Seed for the memory-card key-encryption key.
    pub sd_card_kek_source: Vec<u8>,
    /// Seed for the save-data MAC key-encryption key.
    pub save_mac_kek_source: Vec<u8>,
    /// Seed for the save-data MAC key.
    pub save_mac_key_source: Vec<u8>,
    /// Key used to authenticate save data.
    pub save_mac_key: Vec<u8>,
    /// Key for the partially encrypted game-card header.
    pub xci_header_key: Vec<u8>,
    /// Seed for the content-archive header key.
    pub header_key_source: Vec<u8>,
    /// The content-archive header key; its two halves key the header cipher.
    pub header_key: Vec<u8>,
    /// Second-stage-package signing modulus.
    pub package2_fixed_key_modulus: Vec<u8>,
    /// Seeds for memory-card encryption keys (save, then content).
    pub sd_card_key_sources: Vec<Vec<u8>>,
    /// Seeds for keyblob keys.
    pub keyblob_key_sources: Vec<Vec<u8>>,
    /// Keys that decrypt keyblobs; unique per console.
    pub keyblob_keys: Vec<Vec<u8>>,
    /// Keys that authenticate keyblobs; unique per console.
    pub keyblob_mac_keys: Vec<Vec<u8>>,
    /// Encrypted keyblobs; unique per console.
    pub encrypted_keyblobs: Vec<Vec<u8>>,
    /// Decrypted keyblobs.
    pub keyblobs: Vec<Vec<u8>>,
    /// Class keys set by the later hardware revision's boot code.
    pub mariko_aes_class_keys: Vec<Vec<u8>>,
    /// Seeds for the newer root-key and loader-key derivation.
    pub tsec_auth_signatures: Vec<Vec<u8>>,
    /// Keys for master key-encryption-key decryption on newer firmware.
    pub tsec_root_keys: Vec<Vec<u8>>,
    /// Seeds for firmware master key-encryption keys.
    pub master_kek_sources: Vec<Vec<u8>>,
    /// Seeds for the later hardware revision's master keks.
    pub mariko_master_kek_sources: Vec<Vec<u8>>,
    /// Firmware master key-encryption keys.
    pub master_keks: Vec<Vec<u8>>,
    /// Firmware master keys.
    pub master_keys: Vec<Vec<u8>>,
    /// First-stage-loader MAC keys.
    pub package1_mac_keys: Vec<Vec<u8>>,
    /// First-stage-loader keys.
    pub package1_keys: Vec<Vec<u8>>,
    /// Second-stage-package keys.
    pub package2_keys: Vec<Vec<u8>>,
    /// Title key-encryption keys.
    pub titlekeks: Vec<Vec<u8>>,
    /// Key-area encryption keys: 0x20 application rows, then ocean, then system.
    pub key_area_keys: Vec<Vec<u8>>,
    /// Content-archive header signing moduli.
    pub nca_hdr_fixed_key_moduli: Vec<Vec<u8>>,
    /// Permission-certificate signing moduli.
    pub acid_fixed_key_moduli: Vec<Vec<u8>>,
    /// Memory-card encryption keys.
    pub sd_card_keys: Vec<Vec<u8>>,
}

/// The width of the slot a name denotes, if the name is recognized.
pub open spec fn spec_slot_width(name: Seq<char>) -> Option<int> {
    if name == "secure_boot_key"@ {
        Some(0x10)
    } else
    if name == "tsec_key"@ {
        Some(0x10)
    } else
    if name == "device_key"@ {
        Some(0x10)
    } else
    if name == "mariko_kek"@ {
        Some(0x10)
    } else
    if name == "mariko_bek"@ {
        Some(0x10)
    } else
    if name == "keyblob_mac_key_source"@ {
        Some(0x10)
    } else
    if name == "tsec_root_kek"@ {
        Some(0x10)
    } else
    if name == "package1_mac_kek"@ {
        Some(0x10)
    } else
    if name == "package1_kek"@ {
        Some(0x10)
    } else
    if name == "master_key_source"@ {
        Some(0x10)
    } else
    if name == "package2_key_source"@ {
        Some(0x10)
    } else
    if name == "per_console_key_source"@ {
        Some(0x10)
    } else
    if name == "aes_kek_generation_source"@ {
        Some(0x10)
    } else
    if name == "aes_key_generation_source"@ {
        Some(0x10)
    } else
    if name == "key_area_key_application_source"@ {
        Some(0x10)
    } else
    if name == "key_area_key_ocean_source"@ {
        Some(0x10)
    } else
    if name == "key_area_key_system_source"@ {
        Some(0x10)
    } else
    if name == "titlekek_source"@ {
        Some(0x10)
    } else
    if name == "header_kek_source"@ {
        Some(0x10)
    } else
    if name == "sd_card_kek_source"@ {
        Some(0x10)
    } else
    if name == "save_mac_kek_source"@ {
        Some(0x10)
    } else
    if name == "save_mac_key_source"@ {
        Some(0x10)
    } else
    if name == "save_mac_key"@ {
        Some(0x10)
    } else
    if name == "xci_header_key"@ {
        Some(0x10)
    } else
    if name == "header_key_source"@ {
        Some(0x20)
    } else
    if name == "header_key"@ {
        Some(0x20)
    } else
    if name == "package2_fixed_key_modulus"@ {
        Some(0x100)
    } else
    if name == "sd_card_save_key_source"@ {
        Some(0x20)
    } else
    if name == "sd_card_nca_key_source"@ {
        Some(0x20)
    } else
    if spec_family_index(name, "keyblob_key_source_"@, 0x20) is Some {
        Some(0x10)
    } else
    if spec_family_index(name, "keyblob_key_"@, 0x20) is Some {
        Some(0x10)
    } else
    if spec_family_index(name, "keyblob_mac_key_"@, 0x20) is Some {
        Some(0x10)
    } else
    if spec_family_index(name, "encrypted_keyblob_"@, 0x20) is Some {
        Some(0xB0)
    } else
    if spec_family_index(name, "keyblob_"@, 0x20) is Some {
        Some(0x90)
    } else
    if spec_family_index(name, "mariko_aes_class_key_"@, 0xC) is Some {
        Some(0x10)
    } else
    if spec_family_index(name, "tsec_auth_signature_"@, 0x20) is Some {
        Some(0x10)
    } else
    if spec_family_index(name, "tsec_root_key_"@, 0x20) is Some {
        Some(0x10)
    } else
    if spec_family_index(name, "master_kek_source_"@, 0x20) is Some {
        Some(0x10)
    } else
    if spec_family_index(name, "mariko_master_kek_source_"@, 0x20) is Some {
        Some(0x10)
    } else
    if spec_family_index(name, "master_kek_"@, 0x20) is Some {
        Some(0x10)
    } else
    if spec_family_index(name, "master_key_"@, 0x20) is Some {
        Some(0x10)
    } else
    if spec_family_index(name, "package1_mac_key_"@, 0x20) is Some {
        Some(0x10)
    } else
    if spec_family_index(name, "package1_key_"@, 0x20) is Some {
        Some(0x10)
    } else
    if spec_family_index(name, "package2_key_"@, 0x20) is Some {
        Some(0x10)
    } else
    if spec_family_index(name, "titlekek_"@, 0x20) is Some {
        Some(0x10)
    } else
    if spec_family_index(name, "key_area_key_application_"@, 0x20) is Some {
        Some(0x10)
    } else
    if spec_family_index(name, "key_area_key_ocean_"@, 0x20) is Some {
        Some(0x10)
    } else
    if spec_family_index(name, "key_area_key_system_"@, 0x20) is Some {
        Some(0x10)
    } else
    if spec_family_index(name, "nca_hdr_fixed_key_modulus_"@, 2) is Some {
        Some(0x100)
    } else
    if spec_family_index(name, "acid_fixed_key_modulus_"@, 2) is Some {
        Some(0x100)
    } else
    {
        None
    }
}

/// The bytes currently held by the slot a name denotes (the empty
/// sequence for an unrecognized name).
pub open spec fn spec_slot_value(keys: NcaKeys, name: Seq<char>) -> Seq<u8> {
    if name == "secure_boot_key"@ {
        keys.secure_boot_key@
    } else
    if name == "tsec_key"@ {
        keys.tsec_key@
    } else
    if name == "device_key"@ {
        keys.device_key@
    } else
    if name == "mariko_kek"@ {
        keys.mariko_kek@
    } else
    if name == "mariko_bek"@ {
        keys.mariko_bek@
    } else
    if name == "keyblob_mac_key_source"@ {
        keys.keyblob_mac_key_source@
    } else
    if name == "tsec_root_kek"@ {
        keys.tsec_root_kek@
    } else
    if name == "package1_mac_kek"@ {
        keys.package1_mac_kek@
    } else
    if name == "package1_kek"@ {
        keys.package1_kek@
    } else
    if name == "master_key_source"@ {
        keys.master_key_source@
    } else
    if name == "package2_key_source"@ {
        keys.package2_key_source@
    } else
    if name == "per_console_key_source"@ {
        keys.per_console_key_source@
    } else
    if name == "aes_kek_generation_source"@ {
        keys.aes_kek_generation_source@
    } else
    if name == "aes_key_generation_source"@ {
        keys.aes_key_generation_source@
    } else
    if name == "key_area_key_application_source"@ {
        keys.key_area_key_application_source@
    } else
    if name == "key_area_key_ocean_source"@ {
        keys.key_area_key_ocean_source@
    } else
    if name == "key_area_key_system_source"@ {
        keys.key_area_key_system_source@
    } else
    if name == "titlekek_source"@ {
        keys.titlekek_source@
    } else
    if name == "header_kek_source"@ {
        keys.header_kek_source@
    } else
    if name == "sd_card_kek_source"@ {
        keys.sd_card_kek_source@
    } else
    if name == "save_mac_kek_source"@ {
        keys.save_mac_kek_source@
    } else
    if name == "save_mac_key_source"@ {
        keys.save_mac_key_source@
    } else
    if name == "save_mac_key"@ {
        keys.save_mac_key@
    } else
    if name == "xci_header_key"@ {
        keys.xci_header_key@
    } else
    if name == "header_key_source"@ {
        keys.header_key_source@
    } else
    if name == "header_key"@ {
        keys.header_key@
    } else
    if name == "package2_fixed_key_modulus"@ {
        keys.package2_fixed_key_modulus@
    } else
    if name == "sd_card_save_key_source"@ {
        keys.sd_card_key_sources@[0]@
    } else
    if name == "sd_card_nca_key_source"@ {
        keys.sd_card_key_sources@[1]@
    } else
    if spec_family_index(name, "keyblob_key_source_"@, 0x20) is Some {
        keys.keyblob_key_sources@[spec_family_index(name, "keyblob_key_source_"@, 0x20).unwrap()]@
    } else
    if spec_family_index(name, "keyblob_key_"@, 0x20) is Some {
        keys.keyblob_keys@[spec_family_index(name, "keyblob_key_"@, 0x20).unwrap()]@
    } else
    if spec_family_index(name, "keyblob_mac_key_"@, 0x20) is Some {
        keys.keyblob_mac_keys@[spec_family_index(name, "keyblob_mac_key_"@, 0x20).unwrap()]@
    } else
    if spec_family_index(name, "encrypted_keyblob_"@, 0x20) is Some {
        keys.encrypted_keyblobs@[spec_family_index(name, "encrypted_keyblob_"@, 0x20).unwrap()]@
    } else
    if spec_family_index(name, "keyblob_"@, 0x20) is Some {
        keys.keyblobs@[spec_family_index(name, "keyblob_"@, 0x20).unwrap()]@
    } else
    if spec_family_index(name, "mariko_aes_class_key_"@, 0xC) is Some {
        keys.mariko_aes_class_keys@[spec_family_index(name, "mariko_aes_class_key_"@, 0xC).unwrap()]@
    } else
    if spec_family_index(name, "tsec_auth_signature_"@, 0x20) is Some {
        keys.tsec_auth_signatures@[spec_family_index(name, "tsec_auth_signature_"@, 0x20).unwrap()]@
    } else
    if spec_family_index(name, "tsec_root_key_"@, 0x20) is Some {
        keys.tsec_root_keys@[spec_family_index(name, "tsec_root_key_"@, 0x20).unwrap()]@
    } else
    if spec_family_index(name, "master_kek_source_"@, 0x20) is Some {
        keys.master_kek_sources@[spec_family_index(name, "master_kek_source_"@, 0x20).unwrap()]@
    } else
    if spec_family_index(name, "mariko_master_kek_source_"@, 0x20) is Some {
        keys.mariko_master_kek_sources@[spec_family_index(name, "mariko_master_kek_source_"@, 0x20).unwrap()]@
    } else
    if spec_family_index(name, "master_kek_"@, 0x20) is Some {
        keys.master_keks@[spec_family_index(name, "master_kek_"@, 0x20).unwrap()]@
    } else
    if spec_family_index(name, "master_key_"@, 0x20) is Some {
        keys.master_keys@[spec_family_index(name, "master_key_"@, 0x20).unwrap()]@
    } else
    if spec_family_index(name, "package1_mac_key_"@, 0x20) is Some {
        keys.package1_mac_keys@[spec_family_index(name, "package1_mac_key_"@, 0x20).unwrap()]@
    } else
    if spec_family_index(name, "package1_key_"@, 0x20) is Some {
        keys.package1_keys@[spec_family_index(name, "package1_key_"@, 0x20).unwrap()]@
    } else
    if spec_family_index(name, "package2_key_"@, 0x20) is Some {
        keys.package2_keys@[spec_family_index(name, "package2_key_"@, 0x20).unwrap()]@
    } else
    if spec_family_index(name, "titlekek_"@, 0x20) is Some {
        keys.titlekeks@[spec_family_index(name, "titlekek_"@, 0x20).unwrap()]@
    } else
    if spec_family_index(name, "key_area_key_application_"@, 0x20) is Some {
        keys.key_area_keys@[spec_family_index(name, "key_area_key_application_"@, 0x20).unwrap()]@
    } else
    if spec_family_index(name, "key_area_key_ocean_"@, 0x20) is Some {
        keys.key_area_keys@[0x20 + spec_family_index(name, "key_area_key_ocean_"@, 0x20).unwrap()]@
    } else
    if spec_family_index(name, "key_area_key_system_"@, 0x20) is Some {
        keys.key_area_keys@[0x40 + spec_family_index(name, "key_area_key_system_"@, 0x20).unwrap()]@
    } else
    if spec_family_index(name, "nca_hdr_fixed_key_modulus_"@, 2) is Some {
        keys.nca_hdr_fixed_key_moduli@[spec_family_index(name, "nca_hdr_fixed_key_modulus_"@, 2).unwrap()]@
    } else
    if spec_family_index(name, "acid_fixed_key_modulus_"@, 2) is Some {
        keys.acid_fixed_key_moduli@[spec_family_index(name, "acid_fixed_key_modulus_"@, 2).unwrap()]@
    } else
    {
        Seq::empty()
    }
}

impl NcaKeys {
    /// Every slot has its fixed width.
    pub open spec fn wf(self) -> bool {
        &&& self.secure_boot_key@.len() == 0x10
        &&& self.tsec_key@.len() == 0x10
        &&& self.device_key@.len() == 0x10
        &&& self.mariko_kek@.len() == 0x10
        &&& self.mariko_bek@.len() == 0x10
        &&& self.keyblob_mac_key_source@.len() == 0x10
        &&& self.tsec_root_kek@.len() == 0x10
        &&& self.package1_mac_kek@.len() == 0x10
        &&& self.package1_kek@.len() == 0x10
        &&& self.master_key_source@.len() == 0x10
        &&& self.package2_key_source@.len() == 0x10
        &&& self.per_console_key_source@.len() == 0x10
        &&& self.aes_kek_generation_source@.len() == 0x10
        &&& self.aes_key_generation_source@.len() == 0x10
        &&& self.key_area_key_application_source@.len() == 0x10
        &&& self.key_area_key_ocean_source@.len() == 0x10
        &&& self.key_area_key_system_source@.len() == 0x10
        &&& self.titlekek_source@.len() == 0x10
        &&& self.header_kek_source@.len() == 0x10
        &&& self.sd_card_kek_source@.len() == 0x10
        &&& self.save_mac_kek_source@.len() == 0x10
        &&& self.save_mac_key_source@.len() == 0x10
        &&& self.save_mac_key@.len() == 0x10
        &&& self.xci_header_key@.len() == 0x10
        &&& self.header_key_source@.len() == 0x20
        &&& self.header_key@.len() == 0x20
        &&& self.package2_fixed_key_modulus@.len() == 0x100
        &&& self.sd_card_key_sources@.len() == 2
        &&& forall|i: int| 0 <= i < 2 ==> (#[trigger] self.sd_card_key_sources@[i])@.len() == 0x20
        &&& self.keyblob_key_sources@.len() == 0x20
        &&& forall|i: int| 0 <= i < 0x20 ==> (#[trigger] self.keyblob_key_sources@[i])@.len() == 0x10
        &&& self.keyblob_keys@.len() == 0x20
        &&& forall|i: int| 0 <= i < 0x20 ==> (#[trigger] self.keyblob_keys@[i])@.len() == 0x10
        &&& self.keyblob_mac_keys@.len() == 0x20
        &&& forall|i: int| 0 <= i < 0x20 ==> (#[trigger] self.keyblob_mac_keys@[i])@.len() == 0x10
        &&& self.encrypted_keyblobs@.len() == 0x20
        &&& forall|i: int| 0 <= i < 0x20 ==> (#[trigger] self.encrypted_keyblobs@[i])@.len() == 0xB0
        &&& self.keyblobs@.len() == 0x20
        &&& forall|i: int| 0 <= i < 0x20 ==> (#[trigger] self.keyblobs@[i])@.len() == 0x90
        &&& self.mariko_aes_class_keys@.len() == 0xC
        &&& forall|i: int| 0 <= i < 0xC ==> (#[trigger] self.mariko_aes_class_keys@[i])@.len() == 0x10
        &&& self.tsec_auth_signatures@.len() == 0x20
        &&& forall|i: int| 0 <= i < 0x20 ==> (#[trigger] self.tsec_auth_signatures@[i])@.len() == 0x10
        &&& self.tsec_root_keys@.len() == 0x20
        &&& forall|i: int| 0 <= i < 0x20 ==> (#[trigger] self.tsec_root_keys@[i])@.len() == 0x10
        &&& self.master_kek_sources@.len() == 0x20
        &&& forall|i: int| 0 <= i < 0x20 ==> (#[trigger] self.master_kek_sources@[i])@.len() == 0x10
        &&& self.mariko_master_kek_sources@.len() == 0x20
        &&& forall|i: int| 0 <= i < 0x20 ==> (#[trigger] self.mariko_master_kek_sources@[i])@.len() == 0x10
        &&& self.master_keks@.len() == 0x20
        &&& forall|i: int| 0 <= i < 0x20 ==> (#[trigger] self.master_keks@[i])@.len() == 0x10
        &&& self.master_keys@.len() == 0x20
        &&& forall|i: int| 0 <= i < 0x20 ==> (#[trigger] self.master_keys@[i])@.len() == 0x10
        &&& self.package1_mac_keys@.len() == 0x20
        &&& forall|i: int| 0 <= i < 0x20 ==> (#[trigger] self.package1_mac_keys@[i])@.len() == 0x10
        &&& self.package1_keys@.len() == 0x20
        &&& forall|i: int| 0 <= i < 0x20 ==> (#[trigger] self.package1_keys@[i])@.len() == 0x10
        &&& self.package2_keys@.len() == 0x20
        &&& forall|i: int| 0 <= i < 0x20 ==> (#[trigger] self.package2_keys@[i])@.len() == 0x10
        &&& self.titlekeks@.len() == 0x20
        &&& forall|i: int| 0 <= i < 0x20 ==> (#[trigger] self.titlekeks@[i])@.len() == 0x10
        &&& self.key_area_keys@.len() == 0x60
        &&& forall|i: int| 0 <= i < 0x60 ==> (#[trigger] self.key_area_keys@[i])@.len() == 0x10
        &&& self.nca_hdr_fixed_key_moduli@.len() == 2
        &&& forall|i: int| 0 <= i < 2 ==> (#[trigger] self.nca_hdr_fixed_key_moduli@[i])@.len() == 0x100
        &&& self.acid_fixed_key_moduli@.len() == 2
        &&& forall|i: int| 0 <= i < 2 ==> (#[trigger] self.acid_fixed_key_moduli@[i])@.len() == 0x100
        &&& self.sd_card_keys@.len() == 2
        &&& forall|i: int| 0 <= i < 2 ==> (#[trigger] self.sd_card_keys@[i])@.len() == 0x20
    }

    /// A store with every slot zeroed.
    pub fn new() -> (r: NcaKeys)
        ensures
            r.wf(),
            forall|name: Seq<char>|
                spec_slot_width(name) matches Some(w) ==> #[trigger] spec_slot_value(r, name)
                    == zero_seq(w),
    {
        NcaKeys {
            secure_boot_key: zero_bytes(0x10),
            tsec_key: zero_bytes(0x10),
            device_key: zero_bytes(0x10),
            mariko_kek: zero_bytes(0x10),
            mariko_bek: zero_bytes(0x10),
            keyblob_mac_key_source: zero_bytes(0x10),
            tsec_root_kek: zero_bytes(0x10),
            package1_mac_kek: zero_bytes(0x10),
            package1_kek: zero_bytes(0x10),
            master_key_source: zero_bytes(0x10),
            package2_key_source: zero_bytes(0x10),
            per_console_key_source: zero_bytes(0x10),
            aes_kek_generation_source: zero_bytes(0x10),
            aes_key_generation_source: zero_bytes(0x10),
            key_area_key_application_source: zero_bytes(0x10),
            key_area_key_ocean_source: zero_bytes(0x10),
            key_area_key_system_source: zero_bytes(0x10),
            titlekek_source: zero_bytes(0x10),
            header_kek_source: zero_bytes(0x10),
            sd_card_kek_source: zero_bytes(0x10),
            save_mac_kek_source: zero_bytes(0x10),
            save_mac_key_source: zero_bytes(0x10),
            save_mac_key: zero_bytes(0x10),
            xci_header_key: zero_bytes(0x10),
            header_key_source: zero_bytes(0x20),
            header_key: zero_bytes(0x20),
            package2_fixed_key_modulus: zero_bytes(0x100),
            sd_card_key_sources: zero_rows(2, 0x20),
            keyblob_key_sources: zero_rows(0x20, 0x10),
            keyblob_keys: zero_rows(0x20, 0x10),
            keyblob_mac_keys: zero_rows(0x20, 0x10),
            encrypted_keyblobs: zero_rows(0x20, 0xB0),
            keyblobs: zero_rows(0x20, 0x90),
            mariko_aes_class_keys: zero_rows(0xC, 0x10),
            tsec_auth_signatures: zero_rows(0x20, 0x10),
            tsec_root_keys: zero_rows(0x20, 0x10),
            master_kek_sources: zero_rows(0x20, 0x10),
            mariko_master_kek_sources: zero_rows(0x20, 0x10),
            master_keks: zero_rows(0x20, 0x10),
            master_keys: zero_rows(0x20, 0x10),
            package1_mac_keys: zero_rows(0x20, 0x10),
            package1_keys: zero_rows(0x20, 0x10),
            package2_keys: zero_rows(0x20, 0x10),
            titlekeks: zero_rows(0x20, 0x10),
            key_area_keys: zero_rows(0x60, 0x10),
            nca_hdr_fixed_key_moduli: zero_rows(2, 0x100),
            acid_fixed_key_moduli: zero_rows(2, 0x100),
            sd_card_keys: zero_rows(2, 0x20),
        }
    }
}

/// What one parsed assignment line did to the store.
#[derive(Debug, Clone, Copy, PartialEq, Eq, Structural)]
pub enum LineOutcome {
    /// The name denotes no slot; the line is ignored.
    Unrecognized,
    /// The bytes were stored in the named slot.
    Assigned,
    /// The name is recognized but the hex did not decode to exactly the
    /// slot's width.
    LengthMismatch,
}

/// The view of an optional byte vector.
pub open spec fn opt_view(ob: Option<Vec<u8>>) -> Option<Seq<u8>> {
    match ob {
        Some(v) => Some(v@),
        None => None,
    }
}

/// The outcome an assignment of `ob` to the slot named `name` must have.
pub open spec fn spec_outcome(name: Seq<char>, ob: Option<Seq<u8>>) -> LineOutcome {
    match spec_slot_width(name) {
        None => LineOutcome::Unrecognized,
        Some(w) => match ob {
            Some(v) => if v.len() == w {
                LineOutcome::Assigned
            } else {
                LineOutcome::LengthMismatch
            },
            None => LineOutcome::LengthMismatch,
        },
    }
}

/// Stores decoded bytes into the slot `name` denotes, leaving every
/// other slot unchanged; reports whether the name was recognized and the
/// width matched.
#[verifier::rlimit(100)]
#[verifier::spinoff_prover]
fn assign_slot(keys: &mut NcaKeys, name: &str, bytes: &Option<Vec<u8>>) -> (r: LineOutcome)
    requires
        old(keys).wf(),
    ensures
        r == spec_outcome(name@, opt_view(*bytes)),
        final(keys).wf(),
        forall|n2: Seq<char>|
            #[trigger] spec_slot_value(*final(keys), n2) == if r == LineOutcome::Assigned && n2
                == name@ {
                opt_view(*bytes).unwrap()
            } else {
                spec_slot_value(*old(keys), n2)
            },
{
    if str_eq(name, "secure_boot_key") {
        match bytes {
            Some(v) => {
                if v.len() == 0x10 {
                    keys.secure_boot_key = clone_bytes(v);
                    return LineOutcome::Assigned;
                }
                return LineOutcome::LengthMismatch;
            },
            None => {
                return LineOutcome::LengthMismatch;
            },
        }
    }
    if str_eq(name, "tsec_key") {
        match bytes {
            Some(v) => {
                if v.len() == 0x10 {
                    keys.tsec_key = clone_bytes(v);
                    return LineOutcome::Assigned;
                }
                return LineOutcome::LengthMismatch;
            },
            None => {
                return LineOutcome::LengthMismatch;
            },
        }
    }
    if str_eq(name, "device_key") {
        match bytes {
            Some(v) => {
                if v.len() == 0x10 {
                    keys.device_key = clone_bytes(v);
                    return LineOutcome::Assigned;
                }
                return LineOutcome::LengthMismatch;
            },
            None => {
                return LineOutcome::LengthMismatch;
            },
        }
    }
    if str_eq(name, "mariko_kek") {
        match bytes {
            Some(v) => {
                if v.len() == 0x10 {
                    keys.mariko_kek = clone_bytes(v);
                    return LineOutcome::Assigned;
                }
                return LineOutcome::LengthMismatch;
            },
            None => {
                return LineOutcome::LengthMismatch;
            },
        }
    }
    if str_eq(name, "mariko_bek") {
        match bytes {
            Some(v) => {
                if v.len() == 0x10 {
                    keys.mariko_bek = clone_bytes(v);
                    return LineOutcome::Assigned;
                }
                return LineOutcome::LengthMismatch;
            },
            None => {
                return LineOutcome::LengthMismatch;
            },
        }
    }
    if str_eq(name, "keyblob_mac_key_source") {
        match bytes {
            Some(v) => {
                if v.len() == 0x10 {
                    keys.keyblob_mac_key_source = clone_bytes(v);
                    return LineOutcome::Assigned;
                }
                return LineOutcome::LengthMismatch;
            },
            None => {
                return LineOutcome::LengthMismatch;
            },
        }
    }
    if str_eq(name, "tsec_root_kek") {
        match bytes {
            Some(v) => {
                if v.len() == 0x10 {
                    keys.tsec_root_kek = clone_bytes(v);
                    return LineOutcome::Assigned;
                }
                return LineOutcome::LengthMismatch;
            },
            None => {
                return LineOutcome::LengthMismatch;
            },
        }
    }
    if str_eq(name, "package1_mac_kek") {
        match bytes {
            Some(v) => {
                if v.len() == 0x10 {
                    keys.package1_mac_kek = clone_bytes(v);
                    return LineOutcome::Assigned;
                }
                return LineOutcome::LengthMismatch;
            },
            None => {
                return LineOutcome::LengthMismatch;
            },
        }
    }
    if str_eq(name, "package1_kek") {
        match bytes {
            Some(v) => {
                if v.len() == 0x10 {
                    keys.package1_kek = clone_bytes(v);
                    return LineOutcome::Assigned;
                }
                return LineOutcome::LengthMismatch;
            },
            None => {
                return LineOutcome::LengthMismatch;
            },
        }
    }
    if str_eq(name, "master_key_source") {
        match bytes {
            Some(v) => {
                if v.len() == 0x10 {
                    keys.master_key_source = clone_bytes(v);
                    return LineOutcome::Assigned;
                }
                return LineOutcome::LengthMismatch;
            },
            None => {
                return LineOutcome::LengthMismatch;
            },
        }
    }
    if str_eq(name, "package2_key_source") {
        match bytes {
            Some(v) => {
                if v.len() == 0x10 {
                    keys.package2_key_source = clone_bytes(v);
                    return LineOutcome::Assigned;
                }
                return LineOutcome::LengthMismatch;
            },
            None => {
                return LineOutcome::LengthMismatch;
            },
        }
    }
    if str_eq(name, "per_console_key_source") {
        match bytes {
            Some(v) => {
                if v.len() == 0x10 {
                    keys.per_console_key_source = clone_bytes(v);
                    return LineOutcome::Assigned;
                }
                return LineOutcome::LengthMismatch;
            },
            None => {
                return LineOutcome::LengthMismatch;
            },
        }
    }
    if str_eq(name, "aes_kek_generation_source") {
        match bytes {
            Some(v) => {
                if v.len() == 0x10 {
                    keys.aes_kek_generation_source = clone_bytes(v);
                    return LineOutcome::Assigned;
                }
                return LineOutcome::LengthMismatch;
            },
            None => {
                return LineOutcome::LengthMismatch;
            },
        }
    }
    if str_eq(name, "aes_key_generation_source") {
        match bytes {
            Some(v) => {
                if v.len() == 0x10 {
                    keys.aes_key_generation_source = clone_bytes(v);
                    return LineOutcome::Assigned;
                }
                return LineOutcome::LengthMismatch;
            },
            None => {
                return LineOutcome::LengthMismatch;
            },
        }
    }
    if str_eq(name, "key_area_key_application_source") {
        match bytes {
            Some(v) => {
                if v.len() == 0x10 {
                    keys.key_area_key_application_source = clone_bytes(v);
                    return LineOutcome::Assigned;
                }
                return LineOutcome::LengthMismatch;
            },
            None => {
                return LineOutcome::LengthMismatch;
            },
        }
    }
    if str_eq(name, "key_area_key_ocean_source") {
        match bytes {
            Some(v) => {
                if v.len() == 0x10 {
                    keys.key_area_key_ocean_source = clone_bytes(v);
                    return LineOutcome::Assigned;
                }
                return LineOutcome::LengthMismatch;
            },
            None => {
                return LineOutcome::LengthMismatch;
            },
        }
    }
    if str_eq(name, "key_area_key_system_source") {
        match bytes {
            Some(v) => {
                if v.len() == 0x10 {
                    keys.key_area_key_system_source = clone_bytes(v);
                    return LineOutcome::Assigned;
                }
                return LineOutcome::LengthMismatch;
            },
            None => {
                return LineOutcome::LengthMismatch;
            },
        }
    }
    if str_eq(name, "titlekek_source") {
        match bytes {
            Some(v) => {
                if v.len() == 0x10 {
                    keys.titlekek_source = clone_bytes(v);
                    return LineOutcome::Assigned;
                }
                return LineOutcome::LengthMismatch;
            },
            None => {
                return LineOutcome::LengthMismatch;
            },
        }
    }
    if str_eq(name, "header_kek_source") {
        match bytes {
            Some(v) => {
                if v.len() == 0x10 {
                    keys.header_kek_source = clone_bytes(v);
                    return LineOutcome::Assigned;
                }
                return LineOutcome::LengthMismatch;
            },
            None => {
                return LineOutcome::LengthMismatch;
            },
        }
    }
    if str_eq(name, "sd_card_kek_source") {
        match bytes {
            Some(v) => {
                if v.len() == 0x10 {
                    keys.sd_card_kek_source = clone_bytes(v);
                    return LineOutcome::Assigned;
                }
                return LineOutcome::LengthMismatch;
            },
            None => {
                return LineOutcome::LengthMismatch;
            },
        }
    }
    if str_eq(name, "save_mac_kek_source") {
        match bytes {
            Some(v) => {
                if v.len() == 0x10 {
                    keys.save_mac_kek_source = clone_bytes(v);
                    return LineOutcome::Assigned;
                }
                return LineOutcome::LengthMismatch;
            },
            None => {
                return LineOutcome::LengthMismatch;
            },
        }
    }
    if str_eq(name, "save_mac_key_source") {
        match bytes {
            Some(v) => {
                if v.len() == 0x10 {
                    keys.save_mac_key_source = clone_bytes(v);
                    return LineOutcome::Assigned;
                }
                return LineOutcome::LengthMismatch;
            },
            None => {
                return LineOutcome::LengthMismatch;
            },
        }
    }
    if str_eq(name, "save_mac_key") {
        match bytes {
            Some(v) => {
                if v.len() == 0x10 {
                    keys.save_mac_key = clone_bytes(v);
                    return LineOutcome::Assigned;
                }
                return LineOutcome::LengthMismatch;
            },
            None => {
                return LineOutcome::LengthMismatch;
            },
        }
    }
    if str_eq(name, "xci_header_key") {
        match bytes {
            Some(v) => {
                if v.len() == 0x10 {
                    keys.xci_header_key = clone_bytes(v);
                    return LineOutcome::Assigned;
                }
                return LineOutcome::LengthMismatch;
            },
            None => {
                return LineOutcome::LengthMismatch;
            },
        }
    }
    if str_eq(name, "header_key_source") {
        match bytes {
            Some(v) => {
                if v.len() == 0x20 {
                    keys.header_key_source = clone_bytes(v);
                    return LineOutcome::Assigned;
                }
                return LineOutcome::LengthMismatch;
            },
            None => {
                return LineOutcome::LengthMismatch;
            },
        }
    }
    if str_eq(name, "header_key") {
        match bytes {
            Some(v) => {
                if v.len() == 0x20 {
                    keys.header_key = clone_bytes(v);
                    return LineOutcome::Assigned;
                }
                return LineOutcome::LengthMismatch;
            },
            None => {
                return LineOutcome::LengthMismatch;
            },
        }
    }
    if str_eq(name, "package2_fixed_key_modulus") {
        match bytes {
            Some(v) => {
                if v.len() == 0x100 {
                    keys.package2_fixed_key_modulus = clone_bytes(v);
                    return LineOutcome::Assigned;
                }
                return LineOutcome::LengthMismatch;
            },
            None => {
                return LineOutcome::LengthMismatch;
            },
        }
    }
    if str_eq(name, "sd_card_save_key_source") {
        match bytes {
            Some(v) => {
                if v.len() == 0x20 {
                    keys.sd_card_key_sources[0] = clone_bytes(v);
                    return LineOutcome::Assigned;
                }
                return LineOutcome::LengthMismatch;
            },
            None => {
                return LineOutcome::LengthMismatch;
            },
        }
    }
    if str_eq(name, "sd_card_nca_key_source") {
        match bytes {
            Some(v) => {
                if v.len() == 0x20 {
                    keys.sd_card_key_sources[1] = clone_bytes(v);
                    return LineOutcome::Assigned;
                }
                return LineOutcome::LengthMismatch;
            },
            None => {
                return LineOutcome::LengthMismatch;
            },
        }
    }
    if let Some(i) = family_index(name, "keyblob_key_source_", 0x20) {
        match bytes {
            Some(v) => {
                if v.len() == 0x10 {
                    keys.keyblob_key_sources[i] = clone_bytes(v);
                    proof {
                        assert forall|n2: Seq<char>|
                            #[trigger] spec_family_index(n2, "keyblob_key_source_"@, 0x20) == Some(
                                i as int,
                            ) implies n2 == name@ by {
                            lemma_family_index_injective(name@, n2, "keyblob_key_source_"@, 0x20);
                        }
                    }
                    return LineOutcome::Assigned;
                }
                return LineOutcome::LengthMismatch;
            },
            None => {
                return LineOutcome::LengthMismatch;
            },
        }
    }
    if let Some(i) = family_index(name, "keyblob_key_", 0x20) {
        match bytes {
            Some(v) => {
                if v.len() == 0x10 {
                    keys.keyblob_keys[i] = clone_bytes(v);
                    proof {
                        assert forall|n2: Seq<char>|
                            #[trigger] spec_family_index(n2, "keyblob_key_"@, 0x20) == Some(
                                i as int,
                            ) implies n2 == name@ by {
                            lemma_family_index_injective(name@, n2, "keyblob_key_"@, 0x20);
                        }
                    }
                    return LineOutcome::Assigned;
                }
                return LineOutcome::LengthMismatch;
            },
            None => {
                return LineOutcome::LengthMismatch;
            },
        }
    }
    if let Some(i) = family_index(name, "keyblob_mac_key_", 0x20) {
        match bytes {
            Some(v) => {
                if v.len() == 0x10 {
                    keys.keyblob_mac_keys[i] = clone_bytes(v);
                    proof {
                        assert forall|n2: Seq<char>|
                            #[trigger] spec_family_index(n2, "keyblob_mac_key_"@, 0x20) == Some(
                                i as int,
                            ) implies n2 == name@ by {
                            lemma_family_index_injective(name@, n2, "keyblob_mac_key_"@, 0x20);
                        }
                    }
                    return LineOutcome::Assigned;
                }
                return LineOutcome::LengthMismatch;
            },
            None => {
                return LineOutcome::LengthMismatch;
            },
        }
    }
    if let Some(i) = family_index(name, "encrypted_keyblob_", 0x20) {
        match bytes {
            Some(v) => {
                if v.len() == 0xB0 {
                    keys.encrypted_keyblobs[i] = clone_bytes(v);
                    proof {
                        assert forall|n2: Seq<char>|
                            #[trigger] spec_family_index(n2, "encrypted_keyblob_"@, 0x20) == Some(
                                i as int,
                            ) implies n2 == name@ by {
                            lemma_family_index_injective(name@, n2, "encrypted_keyblob_"@, 0x20);
                        }
                    }
                    return LineOutcome::Assigned;
                }
                return LineOutcome::LengthMismatch;
            },
            None => {
                return LineOutcome::LengthMismatch;
            },
        }
    }
    if let Some(i) = family_index(name, "keyblob_", 0x20) {
        match bytes {
            Some(v) => {
                if v.len() == 0x90 {
                    keys.keyblobs[i] = clone_bytes(v);
                    proof {
                        assert forall|n2: Seq<char>|
                            #[trigger] spec_family_index(n2, "keyblob_"@, 0x20) == Some(
                                i as int,
                            ) implies n2 == name@ by {
                            lemma_family_index_injective(name@, n2, "keyblob_"@, 0x20);
                        }
                    }
                    return LineOutcome::Assigned;
                }
                return LineOutcome::LengthMismatch;
            },
            None => {
                return LineOutcome::LengthMismatch;
            },
        }
    }
    if let Some(i) = family_index(name, "mariko_aes_class_key_", 0xC) {
        match bytes {
            Some(v) => {
                if v.len() == 0x10 {
                    keys.mariko_aes_class_keys[i] = clone_bytes(v);
                    proof {
                        assert forall|n2: Seq<char>|
                            #[trigger] spec_family_index(n2, "mariko_aes_class_key_"@, 0xC) == Some(
                                i as int,
                            ) implies n2 == name@ by {
                            lemma_family_index_injective(name@, n2, "mariko_aes_class_key_"@, 0xC);
                        }
                    }
                    return LineOutcome::Assigned;
                }
                return LineOutcome::LengthMismatch;
            },
            None => {
                return LineOutcome::LengthMismatch;
            },
        }
    }
    if let Some(i) = family_index(name, "tsec_auth_signature_", 0x20) {
        match bytes {
            Some(v) => {
                if v.len() == 0x10 {
                    keys.tsec_auth_signatures[i] = clone_bytes(v);
                    proof {
                        assert forall|n2: Seq<char>|
                            #[trigger] spec_family_index(n2, "tsec_auth_signature_"@, 0x20) == Some(
                                i as int,
                            ) implies n2 == name@ by {
                            lemma_family_index_injective(name@, n2, "tsec_auth_signature_"@, 0x20);
                        }
                    }
                    return LineOutcome::Assigned;
                }
                return LineOutcome::LengthMismatch;
            },
            None => {
                return LineOutcome::LengthMismatch;
            },
        }
    }
    if let Some(i) = family_index(name, "tsec_root_key_", 0x20) {
        match bytes {
            Some(v) => {
                if v.len() == 0x10 {
                    keys.tsec_root_keys[i] = clone_bytes(v);
                    proof {
                        assert forall|n2: Seq<char>|
                            #[trigger] spec_family_index(n2, "tsec_root_key_"@, 0x20) == Some(
                                i as int,
                            ) implies n2 == name@ by {
                            lemma_family_index_injective(name@, n2, "tsec_root_key_"@, 0x20);
                        }
                    }
                    return LineOutcome::Assigned;
                }
                return LineOutcome::LengthMismatch;
            },
            None => {
                return LineOutcome::LengthMismatch;
            },
        }
    }
    if let Some(i) = family_index(name, "master_kek_source_", 0x20) {
        match bytes {
            Some(v) => {
                if v.len() == 0x10 {
                    keys.master_kek_sources[i] = clone_bytes(v);
                    proof {
                        assert forall|n2: Seq<char>|
                            #[trigger] spec_family_index(n2, "master_kek_source_"@, 0x20) == Some(
                                i as int,
                            ) implies n2 == name@ by {
                            lemma_family_index_injective(name@, n2, "master_kek_source_"@, 0x20);
                        }
                    }
                    return LineOutcome::Assigned;
                }
                return LineOutcome::LengthMismatch;
            },
            None => {
                return LineOutcome::LengthMismatch;
            },
        }
    }
    if let Some(i) = family_index(name, "mariko_master_kek_source_", 0x20) {
        match bytes {
            Some(v) => {
                if v.len() == 0x10 {
                    keys.mariko_master_kek_sources[i] = clone_bytes(v);
                    proof {
                        assert forall|n2: Seq<char>|
                            #[trigger] spec_family_index(n2, "mariko_master_kek_source_"@, 0x20) == Some(
                                i as int,
                            ) implies n2 == name@ by {
                            lemma_family_index_injective(name@, n2, "mariko_master_kek_source_"@, 0x20);
                        }
                    }
                    return LineOutcome::Assigned;
                }
                return LineOutcome::LengthMismatch;
            },
            None => {
                return LineOutcome::LengthMismatch;
            },
        }
    }
    if let Some(i) = family_index(name, "master_kek_", 0x20) {
        match bytes {
            Some(v) => {
                if v.len() == 0x10 {
                    keys.master_keks[i] = clone_bytes(v);
                    proof {
                        assert forall|n2: Seq<char>|
                            #[trigger] spec_family_index(n2, "master_kek_"@, 0x20) == Some(
                                i as int,
                            ) implies n2 == name@ by {
                            lemma_family_index_injective(name@, n2, "master_kek_"@, 0x20);
                        }
                    }
                    return LineOutcome::Assigned;
                }
                return LineOutcome::LengthMismatch;
            },
            None => {
                return LineOutcome::LengthMismatch;
            },
        }
    }
    if let Some(i) = family_index(name, "master_key_", 0x20) {
        match bytes {
            Some(v) => {
                if v.len() == 0x10 {
                    keys.master_keys[i] = clone_bytes(v);
                    proof {
                        assert forall|n2: Seq<char>|
                            #[trigger] spec_family_index(n2, "master_key_"@, 0x20) == Some(
                                i as int,
                            ) implies n2 == name@ by {
                            lemma_family_index_injective(name@, n2, "master_key_"@, 0x20);
                        }
                    }
                    return LineOutcome::Assigned;
                }
                return LineOutcome::LengthMismatch;
            },
            None => {
                return LineOutcome::LengthMismatch;
            },
        }
    }
    if let Some(i) = family_index(name, "package1_mac_key_", 0x20) {
        match bytes {
            Some(v) => {
                if v.len() == 0x10 {
                    keys.package1_mac_keys[i] = clone_bytes(v);
                    proof {
                        assert forall|n2: Seq<char>|
                            #[trigger] spec_family_index(n2, "package1_mac_key_"@, 0x20) == Some(
                                i as int,
                            ) implies n2 == name@ by {
                            lemma_family_index_injective(name@, n2, "package1_mac_key_"@, 0x20);
                        }
                    }
                    return LineOutcome::Assigned;
                }
                return LineOutcome::LengthMismatch;
            },
            None => {
                return LineOutcome::LengthMismatch;
            },
        }
    }
    if let Some(i) = family_index(name, "package1_key_", 0x20) {
        match bytes {
            Some(v) => {
                if v.len() == 0x10 {
                    keys.package1_keys[i] = clone_bytes(v);
                    proof {
                        assert forall|n2: Seq<char>|
                            #[trigger] spec_family_index(n2, "package1_key_"@, 0x20) == Some(
                                i as int,
                            ) implies n2 == name@ by {
                            lemma_family_index_injective(name@, n2, "package1_key_"@, 0x20);
                        }
                    }
                    return LineOutcome::Assigned;
                }
                return LineOutcome::LengthMismatch;
            },
            None => {
                return LineOutcome::LengthMismatch;
            },
        }
    }
    if let Some(i) = family_index(name, "package2_key_", 0x20) {
        match bytes {
            Some(v) => {
                if v.len() == 0x10 {
                    keys.package2_keys[i] = clone_bytes(v);
                    proof {
                        assert forall|n2: Seq<char>|
                            #[trigger] spec_family_index(n2, "package2_key_"@, 0x20) == Some(
                                i as int,
                            ) implies n2 == name@ by {
                            lemma_family_index_injective(name@, n2, "package2_key_"@, 0x20);
                        }
                    }
                    return LineOutcome::Assigned;
                }
                return LineOutcome::LengthMismatch;
            },
            None => {
                return LineOutcome::LengthMismatch;
            },
        }
    }
    if let Some(i) = family_index(name, "titlekek_", 0x20) {
        match bytes {
            Some(v) => {
                if v.len() == 0x10 {
                    keys.titlekeks[i] = clone_bytes(v);
                    proof {
                        assert forall|n2: Seq<char>|
                            #[trigger] spec_family_index(n2, "titlekek_"@, 0x20) == Some(
                                i as int,
                            ) implies n2 == name@ by {
                            lemma_family_index_injective(name@, n2, "titlekek_"@, 0x20);
                        }
                    }
                    return LineOutcome::Assigned;
                }
                return LineOutcome::LengthMismatch;
            },
            None => {
                return LineOutcome::LengthMismatch;
            },
        }
    }
    if let Some(i) = family_index(name, "key_area_key_application_", 0x20) {
        match bytes {
            Some(v) => {
                if v.len() == 0x10 {
                    keys.key_area_keys[i] = clone_bytes(v);
                    proof {
                        assert forall|n2: Seq<char>|
                            #[trigger] spec_family_index(n2, "key_area_key_application_"@, 0x20) == Some(
                                i as int,
                            ) implies n2 == name@ by {
                            lemma_family_index_injective(name@, n2, "key_area_key_application_"@, 0x20);
                        }
                    }
                    return LineOutcome::Assigned;
                }
                return LineOutcome::LengthMismatch;
            },
            None => {
                return LineOutcome::LengthMismatch;
            },
        }
    }
    if let Some(i) = family_index(name, "key_area_key_ocean_", 0x20) {
        match bytes {
            Some(v) => {
                if v.len() == 0x10 {
                    keys.key_area_keys[0x20 + i] = clone_bytes(v);
                    proof {
                        assert forall|n2: Seq<char>|
                            #[trigger] spec_family_index(n2, "key_area_key_ocean_"@, 0x20) == Some(
                                i as int,
                            ) implies n2 == name@ by {
                            lemma_family_index_injective(name@, n2, "key_area_key_ocean_"@, 0x20);
                        }
                    }
                    return LineOutcome::Assigned;
                }
                return LineOutcome::LengthMismatch;
            },
            None => {
                return LineOutcome::LengthMismatch;
            },
        }
    }
    if let Some(i) = family_index(name, "key_area_key_system_", 0x20) {
        match bytes {
            Some(v) => {
                if v.len() == 0x10 {
                    keys.key_area_keys[0x40 + i] = clone_bytes(v);
                    proof {
                        assert forall|n2: Seq<char>|
                            #[trigger] spec_family_index(n2, "key_area_key_system_"@, 0x20) == Some(
                                i as int,
                            ) implies n2 == name@ by {
                            lemma_family_index_injective(name@, n2, "key_area_key_system_"@, 0x20);
                        }
                    }
                    return LineOutcome::Assigned;
                }
                return LineOutcome::LengthMismatch;
            },
            None => {
                return LineOutcome::LengthMismatch;
            },
        }
    }
    if let Some(i) = family_index(name, "nca_hdr_fixed_key_modulus_", 2) {
        match bytes {
            Some(v) => {
                if v.len() == 0x100 {
                    keys.nca_hdr_fixed_key_moduli[i] = clone_bytes(v);
                    proof {
                        assert forall|n2: Seq<char>|
                            #[trigger] spec_family_index(n2, "nca_hdr_fixed_key_modulus_"@, 2) == Some(
                                i as int,
                            ) implies n2 == name@ by {
                            lemma_family_index_injective(name@, n2, "nca_hdr_fixed_key_modulus_"@, 2);
                        }
                    }
                    return LineOutcome::Assigned;
                }
                return LineOutcome::LengthMismatch;
            },
            None => {
                return LineOutcome::LengthMismatch;
            },
        }
    }
    if let Some(i) = family_index(name, "acid_fixed_key_modulus_", 2) {
        match bytes {
            Some(v) => {
                if v.len() == 0x100 {
                    keys.acid_fixed_key_moduli[i] = clone_bytes(v);
                    proof {
                        assert forall|n2: Seq<char>|
                            #[trigger] spec_family_index(n2, "acid_fixed_key_modulus_"@, 2) == Some(
                                i as int,
                            ) implies n2 == name@ by {
                            lemma_family_index_injective(name@, n2, "acid_fixed_key_modulus_"@, 2);
                        }
                    }
                    return LineOutcome::Assigned;
                }
                return LineOutcome::LengthMismatch;
            },
            None => {
                return LineOutcome::LengthMismatch;
            },
        }
    }
    LineOutcome::Unrecognized
}

/// A character a slot name may contain: lower-case letters, digits, and
/// the underscore.
pub open spec fn spec_is_name_char(c: char) -> bool {
    let v = c as u32;
    (0x61 <= v && v <= 0x7A) || (0x30 <= v && v <= 0x39) || v == 0x5F
}

/// The length of the run of name characters starting at `i`.
pub open spec fn spec_name_run(s: Seq<char>, i: int) -> nat
    decreases s.len() - i,
{
    if i < 0 || i >= s.len() || !spec_is_name_char(s[i]) {
        0
    } else {
        1 + spec_name_run(s, i + 1)
    }
}

/// The length of the run of hex-digit characters starting at `i`.
pub open spec fn spec_hex_run(s: Seq<char>, i: int) -> nat
    decreases s.len() - i,
{
    if i < 0 || i >= s.len() || spec_hex_val(s[i]) is None {
        0
    } else {
        1 + spec_hex_run(s, i + 1)
    }
}

/// The length of the line starting at `i`: the characters before the
/// next newline or the end of the text.
pub open spec fn spec_line_len(s: Seq<char>, i: int) -> nat
    decreases s.len() - i,
{
    if i < 0 || i >= s.len() || s[i] as u32 == 0x0A {
        0
    } else {
        1 + spec_line_len(s, i + 1)
    }
}

/// A line ends inside the text, at a newline or at the text's end.
proof fn lemma_line_len_le(s: Seq<char>, i: int)
    requires
        0 <= i <= s.len(),
    ensures
        i + spec_line_len(s, i) <= s.len(),
    decreases s.len() - i,
{
    if i < s.len() && !(s[i] as u32 == 0x0A) {
        lemma_line_len_le(s, i + 1);
    }
}

fn name_run(s: &str, i: usize) -> (r: usize)
    requires
        i <= s@.len(),
    ensures
        r == spec_name_run(s@, i as int),
        i + r <= s@.len(),
    decreases s@.len() - i,
{
    let n = s.unicode_len();
    if i == n {
        return 0;
    }
    let v = s.get_char(i) as u32;
    if (0x61 <= v && v <= 0x7A) || (0x30 <= v && v <= 0x39) || v == 0x5F {
        1 + name_run(s, i + 1)
    } else {
        0
    }
}

fn hex_run(s: &str, i: usize) -> (r: usize)
    requires
        i <= s@.len(),
    ensures
        r == spec_hex_run(s@, i as int),
        i + r <= s@.len(),
    decreases s@.len() - i,
{
    let n = s.unicode_len();
    if i == n {
        return 0;
    }
    if crate::hexstr::hex_val(s.get_char(i)).is_some() {
        1 + hex_run(s, i + 1)
    } else {
        0
    }
}

fn line_len(s: &str, i: usize) -> (r: usize)
    requires
        i <= s@.len(),
    ensures
        r == spec_line_len(s@, i as int),
        i + r <= s@.len(),
    decreases s@.len() - i,
{
    let n = s.unicode_len();
    if i == n {
        return 0;
    }
    if s.get_char(i) as u32 == 0x0A {
        0
    } else {
        1 + line_len(s, i + 1)
    }
}

/// The name and hex parts of an assignment line, when the line has the
/// shape `name = hex` (one space each side of the equals sign; anything
/// after the hex run is ignored).
pub open spec fn spec_parse_line(line: Seq<char>) -> Option<(Seq<char>, Seq<char>)> {
    let nl = spec_name_run(line, 0) as int;
    if nl == 0 {
        None
    } else if nl + 3 > line.len() {
        None
    } else if !(line[nl] as u32 == 0x20 && line[nl + 1] as u32 == 0x3D && line[nl + 2] as u32
        == 0x20) {
        None
    } else {
        let hl = spec_hex_run(line, nl + 3) as int;
        if hl == 0 {
            None
        } else {
            Some((line.take(nl), line.subrange(nl + 3, nl + 3 + hl)))
        }
    }
}

/// Splits an assignment line into its name and hex parts.
fn parse_line(line: &str) -> (r: Option<(&str, &str)>)
    ensures
        match r {
            Some(p) => spec_parse_line(line@) == Some((p.0@, p.1@)),
            None => spec_parse_line(line@) is None,
        },
{
    let n = line.unicode_len();
    let nl = name_run(line, 0);
    if nl == 0 {
        return None;
    }
    if n - nl < 3 {
        return None;
    }
    if !(line.get_char(nl) as u32 == 0x20 && line.get_char(nl + 1) as u32 == 0x3D && line.get_char(
        nl + 2,
    ) as u32 == 0x20) {
        return None;
    }
    let hl = hex_run(line, nl + 3);
    if hl == 0 {
        return None;
    }
    let name = line.substring_char(0, nl);
    let hex = line.substring_char(nl + 3, nl + 3 + hl);
    proof {
        assert(name@ =~= line@.take(nl as int));
    }
    Some((name, hex))
}

/// Whether a line is a hard fault: it parses, its name is recognized,
/// and its hex does not decode to exactly the slot's width.
pub open spec fn spec_line_bad(line: Seq<char>) -> bool {
    match spec_parse_line(line) {
        Some(p) => spec_outcome(p.0, spec_hex_decode(p.1)) == LineOutcome::LengthMismatch,
        None => false,
    }
}

/// Whether a line stores bytes into the slot named `name`.
pub open spec fn spec_line_assigns(line: Seq<char>, name: Seq<char>) -> bool {
    match spec_parse_line(line) {
        Some(p) => p.0 == name && spec_outcome(p.0, spec_hex_decode(p.1))
            == LineOutcome::Assigned,
        None => false,
    }
}

/// The bytes a line stores (meaningful only when the line assigns).
pub open spec fn spec_line_value(line: Seq<char>) -> Seq<u8> {
    spec_hex_decode(spec_parse_line(line).unwrap().1).unwrap()
}

/// Whether any line from position `i` on is a hard fault.
pub open spec fn spec_bad_from(s: Seq<char>, i: int) -> bool
    decreases s.len() - i,
{
    if i < 0 || i > s.len() {
        false
    } else {
        let e = i + spec_line_len(s, i);
        let line = s.subrange(i, if e <= s.len() { e } else { s.len() as int });
        spec_line_bad(line) || (e < s.len() && spec_bad_from(s, e + 1))
    }
}

/// The contents the slot named `name` holds after the lines from
/// position `i` on are applied to a slot currently holding `cur`:
/// the last assignment wins.
pub open spec fn spec_slot_from(s: Seq<char>, i: int, name: Seq<char>, cur: Seq<u8>) -> Seq<u8>
    decreases s.len() - i,
{
    if i < 0 || i > s.len() {
        cur
    } else {
        let e = i + spec_line_len(s, i);
        let line = s.subrange(i, if e <= s.len() { e } else { s.len() as int });
        let cur2 = if spec_line_assigns(line, name) {
            spec_line_value(line)
        } else {
            cur
        };
        if e >= s.len() {
            cur2
        } else {
            spec_slot_from(s, e + 1, name, cur2)
        }
    }
}

/// Applies the lines from character position `pos` on to the store.
#[verifier::rlimit(100)]
#[verifier::spinoff_prover]
fn process_from(text: &str, pos: usize, keys: &mut NcaKeys) -> (r: Result<(), ParseError>)
    requires
        pos <= text@.len(),
        old(keys).wf(),
    ensures
        r is Ok <==> !spec_bad_from(text@, pos as int),
        r matches Err(e) ==> e == ParseError::KeyLengthMismatch,
        r is Ok ==> final(keys).wf() && forall|n2: Seq<char>|
            #[trigger] spec_slot_value(*final(keys), n2) == spec_slot_from(
                text@,
                pos as int,
                n2,
                spec_slot_value(*old(keys), n2),
            ),
    decreases text@.len() - pos,
{
    let _m: usize = text.unicode_len();
    let l = line_len(text, pos);
    let e = pos + l;
    let line = text.substring_char(pos, e);
    let ghost line_view = text@.subrange(pos as int, e as int);
    assert(line@ == line_view);
    match parse_line(line) {
        Some((nm, hx)) => {
            let bytes_opt = crate::hexstr::hex_decode(hx);
            proof {
                assert(opt_view(bytes_opt) == spec_hex_decode(hx@));
            }
            let outcome = assign_slot(keys, nm, &bytes_opt);
            if outcome == LineOutcome::LengthMismatch {
                assert(spec_line_bad(line_view));
                return Err(ParseError::KeyLengthMismatch);
            }
            proof {
                assert(!spec_line_bad(line_view));
                assert forall|n2: Seq<char>| #[trigger] spec_slot_value(*keys, n2) == if
                    spec_line_assigns(line_view, n2) {
                    spec_line_value(line_view)
                } else {
                    spec_slot_value(*old(keys), n2)
                } by {
                    if spec_line_assigns(line_view, n2) {
                        assert(n2 == nm@);
                        assert(outcome == LineOutcome::Assigned);
                    }
                    if outcome == LineOutcome::Assigned && n2 == nm@ {
                        assert(spec_line_assigns(line_view, n2));
                    }
                }
            }
        },
        None => {
            assert(!spec_line_bad(line_view));
            assert(forall|n2: Seq<char>| !spec_line_assigns(line_view, n2));
        },
    }
    let ghost mid = *keys;
    assert(forall|n2: Seq<char>|
        #[trigger] spec_slot_value(mid, n2) == if spec_line_assigns(line_view, n2) {
            spec_line_value(line_view)
        } else {
            spec_slot_value(*old(keys), n2)
        });
    let n = text.unicode_len();
    if e == n {
        return Ok(());
    }
    let res = process_from(text, e + 1, keys);
    match res {
        Ok(()) => {
            proof {
                assert forall|n2: Seq<char>| #[trigger] spec_slot_value(*keys, n2)
                    == spec_slot_from(
                    text@,
                    pos as int,
                    n2,
                    spec_slot_value(*old(keys), n2),
                ) by {
                    assert(spec_slot_value(*keys, n2) == spec_slot_from(
                        text@,
                        e + 1,
                        n2,
                        spec_slot_value(mid, n2),
                    ));
                }
            }
            Ok(())
        },
        Err(err) => Err(err),
    }
}

impl NcaKeys {
    /// Loads a store from the text of a key file.
    ///
    /// Fails with `KeyLengthMismatch` exactly when some line assigns a
    /// recognized name hex that does not decode to the slot's width.
    /// Otherwise every recognized slot holds the value of the last line
    /// that assigned it, or zeroes if none did; lines that do not match
    /// the `name = hex` shape, and lines with unrecognized names, are
    /// ignored.
    pub fn from_text(text: &str) -> (r: Result<NcaKeys, ParseError>)
        ensures
            r is Ok <==> !spec_bad_from(text@, 0),
            r matches Err(e) ==> e == ParseError::KeyLengthMismatch,
            r matches Ok(keys) ==> keys.wf() && forall|name: Seq<char>|
                spec_slot_width(name) matches Some(w) ==> #[trigger] spec_slot_value(keys, name)
                    == spec_slot_from(text@, 0, name, zero_seq(w)),
    {
        let mut keys = NcaKeys::new();
        match process_from(text, 0, &mut keys) {
            Ok(()) => Ok(keys),
            Err(e) => Err(e),
        }
    }
}

/// A line whose name is unrecognized is never a hard fault, whatever its
/// hex part holds: unknown names are ignored for forward compatibility.
pub proof fn lemma_unrecognized_line_not_bad(line: Seq<char>)
    requires
        match spec_parse_line(line) {
            Some(p) => spec_slot_width(p.0) is None,
            None => true,
        },
    ensures
        !spec_line_bad(line),
{
}

/// A line whose name is recognized and whose hex does not decode to
/// exactly the slot's width is a hard fault.
pub proof fn lemma_wrong_length_line_bad(line: Seq<char>)
    requires
        spec_parse_line(line) matches Some(p) && spec_slot_width(p.0) matches Some(w) && match
            spec_hex_decode(p.1) {
            Some(v) => v.len() != w,
            None => true,
        },
    ensures
        spec_line_bad(line),
{
}

/// A newline-free text is one single line.
proof fn lemma_no_newline_line_len(s: Seq<char>, i: int)
    requires
        0 <= i <= s.len(),
        forall|j: int| 0 <= j < s.len() ==> (#[trigger] s[j]) as u32 != 0x0A,
    ensures
        spec_line_len(s, i) == s.len() - i,
    decreases s.len() - i,
{
    if i < s.len() {
        lemma_no_newline_line_len(s, i + 1);
    }
}

/// Loading a key file that consists of one single line fails exactly
/// when that line is a hard fault.
pub proof fn lemma_single_line_text(s: Seq<char>)
    requires
        forall|j: int| 0 <= j < s.len() ==> (#[trigger] s[j]) as u32 != 0x0A,
    ensures
        spec_bad_from(s, 0) == spec_line_bad(s),
{
    lemma_no_newline_line_len(s, 0);
    assert(s.subrange(0, s.len() as int) =~= s);
}

/// The whole law for a one-line key file: loading fails (and then with
/// `KeyLengthMismatch`) exactly when the line parses as `name = hex`,
/// the name is recognized, and the hex does not decode to the slot's
/// width.  In particular a line with an unrecognized name never fails,
/// whatever its hex part holds.
pub proof fn lemma_single_line_load(s: Seq<char>)
    requires
        forall|j: int| 0 <= j < s.len() ==> (#[trigger] s[j]) as u32 != 0x0A,
    ensures
        spec_bad_from(s, 0) <==> (match spec_parse_line(s) {
            Some(p) => spec_slot_width(p.0) matches Some(w) && !(spec_hex_decode(p.1) matches
                Some(v) && v.len() == w),
            None => false,
        }),
{
    lemma_single_line_text(s);
}

/// The general forward-compatibility law, for every key file and every
/// line in it: a line that does not match the `name = hex` shape, or
/// whose name is unrecognized, contributes nothing.  Loading faults and
/// final slot contents are exactly those of the file with scanning
/// resumed directly after that line — the file behaves as if the line
/// were not there.
pub proof fn lemma_inert_line_skipped(s: Seq<char>, i: int, name: Seq<char>, cur: Seq<u8>)
    requires
        0 <= i <= s.len(),
        ({
            let e = i + spec_line_len(s, i);
            let line = s.subrange(
                i,
                if e <= s.len() {
                    e
                } else {
                    s.len() as int
                },
            );
            match spec_parse_line(line) {
                Some(p) => spec_slot_width(p.0) is None,
                None => true,
            }
        }),
    ensures
        ({
            let e = i + spec_line_len(s, i);
            &&& spec_bad_from(s, i) == (e < s.len() && spec_bad_from(s, e + 1))
            &&& spec_slot_from(s, i, name, cur) == if e >= s.len() {
                cur
            } else {
                spec_slot_from(s, e + 1, name, cur)
            }
        }),
{
    let e = i + spec_line_len(s, i);
    let line = s.subrange(
        i,
        if e <= s.len() {
            e
        } else {
            s.len() as int
        },
    );
    assert(!spec_line_bad(line));
    assert(!spec_line_assigns(line, name));
}

} // verus!
