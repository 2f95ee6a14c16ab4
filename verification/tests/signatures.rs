use bitcoin_script::signature::{
    check_pubkey_encoding, check_signature_encoding, is_defined_hashtype_signature,
    is_low_der_signature, is_valid_signature_encoding, SignatureHash,
};
use bitcoin_script::{Error, VerificationFlags};

/// A signature with the given R and S elements and hash type.
fn der(r: &[u8], s: &[u8], hashtype: u8) -> Vec<u8> {
    let mut v = vec![0x30, (r.len() + s.len() + 4) as u8, 0x02, r.len() as u8];
    v.extend_from_slice(r);
    v.push(0x02);
    v.push(s.len() as u8);
    v.extend_from_slice(s);
    v.push(hashtype);
    v
}

const HALF_ORDER: [u8; 32] = [
    0x7f, 0xff, 0xff, 0xff, 0xff, 0xff, 0xff, 0xff, 0xff, 0xff, 0xff, 0xff, 0xff, 0xff, 0xff,
    0xff, 0x5d, 0x57, 0x6e, 0x73, 0x57, 0xa4, 0x50, 0x1d, 0xdf, 0xe9, 0x2f, 0x46, 0x68, 0x1b,
    0x20, 0xa0,
];

#[test]
fn valid_signature_encodings() {
    assert!(is_valid_signature_encoding(&der(&[1], &[1], 1)));
    assert!(is_valid_signature_encoding(&der(&[0x00, 0x80], &[0x7f, 0x01], 1)));
    assert!(is_valid_signature_encoding(&der(&[0x00], &[0x05], 1)));
    assert!(is_valid_signature_encoding(&der(&[0x11; 32], &HALF_ORDER, 1)));
}

#[test]
fn invalid_signature_encodings() {
    // too short
    assert!(!is_valid_signature_encoding(&[0x30, 5, 2, 1, 1, 2, 1, 1]));
    // wrong compound tag
    let mut sig = der(&[1], &[1], 1);
    sig[0] = 0x31;
    assert!(!is_valid_signature_encoding(&sig));
    // total length does not cover the signature
    let mut sig = der(&[1], &[1], 1);
    sig[1] = 7;
    assert!(!is_valid_signature_encoding(&sig));
    // R is not an integer
    let mut sig = der(&[1], &[1], 1);
    sig[2] = 3;
    assert!(!is_valid_signature_encoding(&sig));
    // negative R and S
    assert!(!is_valid_signature_encoding(&der(&[0x80], &[1], 1)));
    assert!(!is_valid_signature_encoding(&der(&[1], &[0x80], 1)));
    // padded R and S
    assert!(!is_valid_signature_encoding(&der(&[0x00, 0x7f], &[1], 1)));
    assert!(!is_valid_signature_encoding(&der(&[1], &[0x00, 0x01], 1)));
    // empty R
    assert!(!is_valid_signature_encoding(&der(&[], &[1, 2], 1)));
    // too long
    assert!(!is_valid_signature_encoding(&der(&[1; 40], &[1; 30], 1)));
}

#[test]
fn low_s_signatures() {
    assert_eq!(is_low_der_signature(&der(&[1], &[1], 1)), Ok(true));
    assert_eq!(is_low_der_signature(&der(&[1], &HALF_ORDER, 1)), Ok(true));
    let mut above = HALF_ORDER;
    above[31] += 1;
    let mut padded = vec![0x00, 0x80];
    padded.extend_from_slice(&[0; 31]);
    assert_eq!(is_low_der_signature(&der(&[1], &above, 1)), Err(Error::SignatureHighS));
    assert_eq!(is_low_der_signature(&der(&[1], &padded, 1)), Err(Error::SignatureHighS));
    assert_eq!(is_low_der_signature(&[0x30]), Err(Error::SignatureDer));
}

#[test]
fn hashtype_examples() {
    assert!(!is_defined_hashtype_signature(&[]));
    assert!(is_defined_hashtype_signature(&[0x01]));
    assert!(is_defined_hashtype_signature(&[0x83]));
    assert!(is_defined_hashtype_signature(&[0x04]));
    assert_eq!(SignatureHash::All.value(), 1);
    assert_eq!(SignatureHash::NoOutputs.value(), 2);
    assert_eq!(SignatureHash::Single.value(), 3);
    assert_eq!(SignatureHash::AnyoneCanPay.value(), 0x80);
}

#[test]
fn signature_encoding_checks() {
    let none = VerificationFlags::default();
    let der_flag = VerificationFlags::default().verify_dersig(true);
    let low_s = VerificationFlags::default().verify_low_s(true);
    let strict = VerificationFlags::default().verify_strictenc(true);
    let bad = vec![0x30, 0x01];
    assert_eq!(check_signature_encoding(&[], &der_flag), Ok(true));
    assert_eq!(check_signature_encoding(&bad, &none), Ok(true));
    assert_eq!(check_signature_encoding(&bad, &der_flag), Err(Error::SignatureDer));
    assert_eq!(check_signature_encoding(&bad, &low_s), Err(Error::SignatureDer));
    assert_eq!(check_signature_encoding(&bad, &strict), Err(Error::SignatureDer));
    let mut above = HALF_ORDER;
    above[31] += 1;
    let high = der(&[1], &above, 1);
    assert_eq!(check_signature_encoding(&high, &der_flag), Ok(true));
    assert_eq!(check_signature_encoding(&high, &low_s), Err(Error::SignatureHighS));
    assert_eq!(check_signature_encoding(&der(&[1], &[1], 1), &strict), Ok(true));
}

#[test]
fn pubkey_encoding_checks() {
    let strict = VerificationFlags::default().verify_strictenc(true);
    assert_eq!(check_pubkey_encoding(&[1, 2, 3], &strict), Err(Error::PubkeyType));
    assert_eq!(check_pubkey_encoding(&[1, 2, 3], &VerificationFlags::default()), Ok(true));
    assert_eq!(check_pubkey_encoding(&[2; 33], &strict), Ok(true));
}
