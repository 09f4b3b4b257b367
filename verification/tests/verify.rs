use hactool_rs::error::Validity;
use hactool_rs::keys::{AcidModuli, KeysetType};
use hactool_rs::npdm::NpdmFile;
use rsa::pss::SigningKey;
use rsa::traits::PublicKeyParts;
use rsa::RsaPrivateKey;
use sha2::Sha256;
use signature::{RandomizedSigner, SignatureEncoding};

/// Builds a minimal valid program-metadata file whose certificate blob
/// carries the given modulus; the signature field starts zeroed.
fn build_file(sign_key_index: u32, modulus: &[u8]) -> Vec<u8> {
    let mut acid = vec![0u8; 0x240];
    acid[0x200 - modulus.len()..0x200].copy_from_slice(modulus);
    acid[0x200..0x204].copy_from_slice(&0x44494341u32.to_le_bytes()); // "ACID"
    acid[0x204..0x208].copy_from_slice(&0x240u32.to_le_bytes());
    acid[0x220..0x224].copy_from_slice(&0x240u32.to_le_bytes());
    acid[0x228..0x22C].copy_from_slice(&0x240u32.to_le_bytes());
    acid[0x230..0x234].copy_from_slice(&0x240u32.to_le_bytes());

    let mut aci0 = vec![0u8; 0x40];
    aci0[0..4].copy_from_slice(&0x30494341u32.to_le_bytes()); // "ACI0"
    aci0[0x28..0x2C].copy_from_slice(&0x40u32.to_le_bytes());
    aci0[0x30..0x34].copy_from_slice(&0x40u32.to_le_bytes());

    let mut out = vec![0u8; 0x80];
    out[0..4].copy_from_slice(&0x4154454Du32.to_le_bytes()); // "META"
    out[4..8].copy_from_slice(&sign_key_index.to_le_bytes());
    let aci0_ptr = out.len() as u32;
    out.extend_from_slice(&aci0);
    let acid_ptr = out.len() as u32;
    out.extend_from_slice(&acid);
    out[0x70..0x74].copy_from_slice(&aci0_ptr.to_le_bytes());
    out[0x74..0x78].copy_from_slice(&(aci0.len() as u32).to_le_bytes());
    out[0x78..0x7C].copy_from_slice(&acid_ptr.to_le_bytes());
    out[0x7C..0x80].copy_from_slice(&(acid.len() as u32).to_le_bytes());
    out
}

/// Writes a signature into the certificate blob's signature field,
/// right-aligned as a big-endian integer.
fn place_signature(file: &mut [u8], signature: &[u8]) {
    let acid_ptr = u32::from_le_bytes(file[0x78..0x7C].try_into().unwrap()) as usize;
    let field = &mut file[acid_ptr..acid_ptr + 0x100];
    field[0x100 - signature.len()..].copy_from_slice(signature);
}

fn junk_moduli() -> AcidModuli {
    AcidModuli {
        retail: vec![vec![0xFFu8; 0x100], vec![0xFDu8; 0x100]],
        dev: vec![vec![0xFBu8; 0x100], vec![0xF9u8; 0x100]],
    }
}

#[test]
fn out_of_range_sign_key_index_is_invalid_without_lookup() {
    let file = build_file(2, &[0xEEu8; 0x100]);
    let npdm = NpdmFile::decode(&file).unwrap();
    // the moduli tables are never consulted for a bad index
    assert_eq!(
        npdm.verify_acid(KeysetType::Retail, &junk_moduli()),
        Err(Validity::Invalid)
    );
    assert_eq!(
        npdm.verify_acid(KeysetType::Dev, &junk_moduli()),
        Err(Validity::Invalid)
    );
}

#[test]
fn wrong_key_is_invalid_not_an_error() {
    let file = build_file(0, &[0xEEu8; 0x100]);
    let npdm = NpdmFile::decode(&file).unwrap();
    // an odd, well-sized but wrong modulus: verification simply fails
    assert_eq!(
        npdm.verify_acid(KeysetType::Retail, &junk_moduli()),
        Ok(Validity::Invalid)
    );
}

#[test]
fn matching_modulus_and_signature_verify() {
    let mut rng = rand::thread_rng();
    let private = RsaPrivateKey::new(&mut rng, 2048).expect("key generation");
    let modulus = private.to_public_key().n().to_bytes_be();

    let mut file = build_file(1, &modulus);
    let acid_ptr = u32::from_le_bytes(file[0x78..0x7C].try_into().unwrap()) as usize;
    let payload = file[acid_ptr + 0x100..acid_ptr + 0x240].to_vec();
    let signer = SigningKey::<Sha256>::new(private);
    let signature = signer.sign_with_rng(&mut rng, &payload).to_bytes();
    place_signature(&mut file, &signature);

    let npdm = NpdmFile::decode(&file).unwrap();
    let mut moduli = junk_moduli();
    moduli.retail[1] = modulus.clone();
    assert_eq!(
        npdm.verify_acid(KeysetType::Retail, &moduli),
        Ok(Validity::Valid)
    );
    // the other key set holds a different modulus, so it does not verify
    assert_eq!(
        npdm.verify_acid(KeysetType::Dev, &moduli),
        Ok(Validity::Invalid)
    );
}

#[test]
fn hex_modulus_verification() {
    let mut rng = rand::thread_rng();
    let private = RsaPrivateKey::new(&mut rng, 2048).expect("key generation");
    let modulus = private.to_public_key().n().to_bytes_be();
    let signer = SigningKey::<Sha256>::new(private);

    let mut file = build_file(0, &modulus);
    let acid_ptr = u32::from_le_bytes(file[0x78..0x7C].try_into().unwrap()) as usize;
    // the signed payload is everything after the signature field, the
    // stored modulus included, exactly as for the fixed-key check
    let payload = file[acid_ptr + 0x100..acid_ptr + 0x240].to_vec();
    let signature = signer.sign_with_rng(&mut rng, &payload).to_bytes();
    place_signature(&mut file, &signature);

    let npdm = NpdmFile::decode(&file).unwrap();
    assert_eq!(
        npdm.verify_with_hex_str(&hex::encode(&modulus)),
        Ok(Validity::Valid)
    );
    assert_eq!(
        npdm.verify_with_hex_str("zz-not-hex"),
        Err(Validity::CheckError)
    );

    // a signature over only the bytes after the modulus field must not
    // verify: the modulus is part of the signed payload
    let mut short = build_file(0, &modulus);
    let tail = short[acid_ptr + 0x200..acid_ptr + 0x240].to_vec();
    let tail_signature = signer.sign_with_rng(&mut rng, &tail).to_bytes();
    place_signature(&mut short, &tail_signature);
    let npdm_short = NpdmFile::decode(&short).unwrap();
    assert_eq!(
        npdm_short.verify_with_hex_str(&hex::encode(&modulus)),
        Ok(Validity::Invalid)
    );
}

#[test]
fn unusable_modulus_is_a_check_error() {
    let file = build_file(0, &[0xEEu8; 0x100]);
    let npdm = NpdmFile::decode(&file).unwrap();
    // an oversized modulus is rejected when the key is built: a tooling
    // fault, not a verification verdict
    let moduli = AcidModuli {
        retail: vec![vec![0xFFu8; 0x300], vec![0xFFu8; 0x300]],
        dev: vec![vec![0xFFu8; 0x300], vec![0xFFu8; 0x300]],
    };
    assert_eq!(
        npdm.verify_acid(KeysetType::Retail, &moduli),
        Err(Validity::CheckError)
    );
}
