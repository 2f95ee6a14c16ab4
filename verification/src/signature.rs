//! Encoding rules for public keys and signatures used by the interpreter.

use vstd::prelude::*;

use crate::be_int::{be_le, be_value};
use crate::error::Error;
use crate::flags::VerificationFlags;

verus! {

/// The hash types a signature can commit to.
#[derive(Debug, Clone, Copy, PartialEq, Eq, Structural)]
pub enum SignatureHash {
    All,
    NoOutputs,
    Single,
    AnyoneCanPay,
}

impl SignatureHash {
    /// The byte that stands for the hash type in a signature.
    pub open spec fn spec_value(self) -> u8 {
        match self {
            SignatureHash::All => 1,
            SignatureHash::NoOutputs => 2,
            SignatureHash::Single => 3,
            SignatureHash::AnyoneCanPay => 0x80,
        }
    }

    /// The byte that stands for the hash type in a signature.
    pub fn value(&self) -> (r: u8)
        ensures
            r == self.spec_value(),
    {
        match self {
            SignatureHash::All => 1,
            SignatureHash::NoOutputs => 2,
            SignatureHash::Single => 3,
            SignatureHash::AnyoneCanPay => 0x80,
        }
    }
}

/// The version of the signature scheme a script is evaluated under.
#[derive(Debug, Clone, Copy, PartialEq, Eq, Structural)]
pub enum SignatureVersion {
    Base,
    WitnessV0,
}

/// A public key is either compressed (33 bytes, starting with 0x02 or 0x03)
/// or uncompressed (65 bytes, starting with 0x04).
pub open spec fn spec_is_public_key(v: Seq<u8>) -> bool {
    ||| v.len() == 33 && (v[0] == 2 || v[0] == 3)
    ||| v.len() == 65 && v[0] == 4
}

/// Tells whether `v` has the shape of a serialized public key.
pub fn is_public_key(v: &[u8]) -> (r: bool)
    ensures
        r == spec_is_public_key(v@),
{
    let n = v.len();
    if n == 33 {
        v[0] == 2 || v[0] == 3
    } else if n == 65 {
        v[0] == 4
    } else {
        false
    }
}


/// A DER integer as the strict encoding rules accept it: at least one byte,
/// not negative (the first byte's highest bit is clear), and not padded
/// (a leading zero byte only where the next byte has its highest bit set).
pub open spec fn spec_canonical_der_int(b: Seq<u8>) -> bool {
    &&& b.len() > 0
    &&& b[0] < 0x80
    &&& (b.len() > 1 && b[0] == 0 ==> b[1] >= 0x80)
}

/// Length of the R element of a DER signature.
pub open spec fn spec_der_r_len(sig: Seq<u8>) -> int {
    sig[3] as int
}

/// Length of the S element of a DER signature.
pub open spec fn spec_der_s_len(sig: Seq<u8>) -> int {
    sig[spec_der_r_len(sig) + 5] as int
}

/// The bytes of the R element of a DER signature.
pub open spec fn spec_der_r(sig: Seq<u8>) -> Seq<u8> {
    sig.subrange(4, 4 + spec_der_r_len(sig))
}

/// The bytes of the S element of a DER signature.
pub open spec fn spec_der_s(sig: Seq<u8>) -> Seq<u8> {
    let start = spec_der_r_len(sig) + 6;
    sig.subrange(start, start + spec_der_s_len(sig))
}

/// A strictly encoded signature:
/// `0x30 [total-length] 0x02 [R-length] [R] 0x02 [S-length] [S] [sighash]`,
/// 9 to 73 bytes long, where the total length covers everything but the
/// sighash byte and R and S are canonical DER integers.
pub open spec fn spec_is_valid_signature_encoding(sig: Seq<u8>) -> bool {
    &&& 9 <= sig.len() <= 73
    &&& sig[0] == 0x30
    &&& sig[1] == sig.len() - 3
    &&& spec_der_r_len(sig) + 5 < sig.len()
    &&& spec_der_r_len(sig) + spec_der_s_len(sig) + 7 == sig.len()
    &&& sig[2] == 2
    &&& spec_canonical_der_int(spec_der_r(sig))
    &&& sig[spec_der_r_len(sig) + 4] == 2
    &&& spec_canonical_der_int(spec_der_s(sig))
}

/// Tells whether `sig` is a canonical signature: `<30> <total len> <02> <len R> <R>
/// <02> <len S> <S> <hashtype>`, where R and S are not negative and not
/// excessively padded (no leading zero byte unless an otherwise negative number
/// follows, in which case a single zero byte is required).
pub fn is_valid_signature_encoding(sig: &[u8]) -> (r: bool)
    ensures
        r == spec_is_valid_signature_encoding(sig@),
{
    let len = sig.len();
    if len < 9 || len > 73 {
        return false;
    }
    if sig[0] != 0x30 {
        return false;
    }
    if sig[1] as usize != len - 3 {
        return false;
    }
    let len_r = sig[3] as usize;
    if len_r + 5 >= len {
        return false;
    }
    let len_s = sig[len_r + 5] as usize;
    if len_r + len_s + 7 != len {
        return false;
    }
    if sig[2] != 2 {
        return false;
    }
    assert(spec_der_r(sig@) =~= sig@.subrange(4, 4 + len_r as int));
    assert(spec_der_s(sig@) =~= sig@.subrange(len_r + 6, len_r + 6 + len_s as int));
    // R must be a non-empty, non-negative, unpadded integer.
    if len_r == 0 {
        return false;
    }
    if sig[4] >= 0x80 {
        return false;
    }
    if len_r > 1 && sig[4] == 0 && sig[5] < 0x80 {
        return false;
    }
    if sig[len_r + 4] != 2 {
        return false;
    }
    // S must be a non-empty, non-negative, unpadded integer.
    if len_s == 0 {
        return false;
    }
    if sig[len_r + 6] >= 0x80 {
        return false;
    }
    if len_s > 1 && sig[len_r + 6] == 0 && sig[len_r + 7] < 0x80 {
        return false;
    }
    true
}


/// The big-endian bytes of half the order of the secp256k1 curve.
pub open spec fn spec_half_curve_order_bytes() -> Seq<u8> {
    seq![
        0x7f, 0xff, 0xff, 0xff, 0xff, 0xff, 0xff, 0xff,
        0xff, 0xff, 0xff, 0xff, 0xff, 0xff, 0xff, 0xff,
        0x5d, 0x57, 0x6e, 0x73, 0x57, 0xa4, 0x50, 0x1d,
        0xdf, 0xe9, 0x2f, 0x46, 0x68, 0x1b, 0x20, 0xa0,
    ]
}

/// A signature has a low S value when its S element, read as an unsigned
/// big-endian number, is at most half the order of the secp256k1 curve.
pub open spec fn spec_has_low_s(sig: Seq<u8>) -> bool {
    be_value(spec_der_s(sig)) <= be_value(spec_half_curve_order_bytes())
}

fn half_curve_order_bytes() -> (r: [u8; 32])
    ensures
        r@ == spec_half_curve_order_bytes(),
{
    let r: [u8; 32] = [
        0x7f, 0xff, 0xff, 0xff, 0xff, 0xff, 0xff, 0xff,
        0xff, 0xff, 0xff, 0xff, 0xff, 0xff, 0xff, 0xff,
        0x5d, 0x57, 0x6e, 0x73, 0x57, 0xa4, 0x50, 0x1d,
        0xdf, 0xe9, 0x2f, 0x46, 0x68, 0x1b, 0x20, 0xa0,
    ];
    assert(r@ =~= spec_half_curve_order_bytes());
    r
}

/// Tells whether the S element of a strictly encoded signature is low.
fn has_low_s(sig: &[u8]) -> (r: bool)
    requires
        spec_is_valid_signature_encoding(sig@),
    ensures
        r == spec_has_low_s(sig@),
{
    let len_r = sig[3] as usize;
    let len_s = sig[len_r + 5] as usize;
    let s = &sig[len_r + 6..len_r + 6 + len_s];
    assert(s@ =~= spec_der_s(sig@));
    let half = half_curve_order_bytes();
    be_le(s, half.as_slice())
}

/// A strictly encoded signature with a low S value is accepted; one that is not
/// strictly encoded is refused with `SignatureDer`, one with a high S value with
/// `SignatureHighS`.
pub open spec fn spec_is_low_der_signature(sig: Seq<u8>) -> Result<bool, Error> {
    if !spec_is_valid_signature_encoding(sig) {
        Err(Error::SignatureDer)
    } else if !spec_has_low_s(sig) {
        Err(Error::SignatureHighS)
    } else {
        Ok(true)
    }
}

/// Checks that `sig` is strictly encoded and has a low S value.
pub fn is_low_der_signature(sig: &[u8]) -> (r: Result<bool, Error>)
    ensures
        r == spec_is_low_der_signature(sig@),
{
    if !is_valid_signature_encoding(sig) {
        return Err(Error::SignatureDer);
    }
    if !has_low_s(sig) {
        return Err(Error::SignatureHighS);
    }
    Ok(true)
}

/// The hash type of a signature is its last byte without the
/// anyone-can-pay bit. The check compares it with the defined hash types by
/// asking that it be both below `All` and above `Single`, which no byte is, so
/// every non-empty signature passes.
pub open spec fn spec_is_defined_hashtype_signature(sig: Seq<u8>) -> bool {
    sig.len() > 0 && {
        let n_hashtype = (sig.last() % 128) as int;
        !(n_hashtype < SignatureHash::All.spec_value() && n_hashtype > SignatureHash::Single.spec_value())
    }
}

/// Checks the hash type of a signature.
pub fn is_defined_hashtype_signature(sig: &[u8]) -> (r: bool)
    ensures
        r == spec_is_defined_hashtype_signature(sig@),
        r == (sig@.len() > 0),
{
    if sig.len() == 0 {
        return false;
    }
    let n_hashtype = sig[sig.len() - 1] % 128;
    if n_hashtype < SignatureHash::All.value() && n_hashtype > SignatureHash::Single.value() {
        return false;
    }
    true
}

/// The outcome of checking a signature's encoding under `flags`: the empty
/// signature always passes; otherwise strict DER encoding is owed when any of
/// `verify_dersig`, `verify_low_s` and `verify_strictenc` is set, a low S value
/// when `verify_low_s` is set, and a defined hash type when `verify_strictenc`
/// is set.
pub open spec fn spec_check_signature_encoding(sig: Seq<u8>, flags: VerificationFlags) -> Result<
    bool,
    Error,
> {
    if sig.len() == 0 {
        Ok(true)
    } else if (flags.verify_dersig || flags.verify_low_s || flags.verify_strictenc)
        && !spec_is_valid_signature_encoding(sig) {
        Err(Error::SignatureDer)
    } else if flags.verify_low_s && !spec_has_low_s(sig) {
        Err(Error::SignatureHighS)
    } else if flags.verify_strictenc && !spec_is_defined_hashtype_signature(sig) {
        Err(Error::SignatureHashtype)
    } else {
        Ok(true)
    }
}

/// Checks the encoding of a signature against the rules that `flags` select.
pub fn check_signature_encoding(sig: &[u8], flags: &VerificationFlags) -> (r: Result<bool, Error>)
    ensures
        r == spec_check_signature_encoding(sig@, *flags),
{
    if sig.len() == 0 {
        return Ok(true);
    }
    if (flags.verify_dersig || flags.verify_low_s || flags.verify_strictenc)
        && !is_valid_signature_encoding(sig) {
        Err(Error::SignatureDer)
    } else if flags.verify_low_s && !is_low_der_signature(sig)? {
        Ok(false)
    } else if flags.verify_strictenc && !is_defined_hashtype_signature(sig) {
        Err(Error::SignatureHashtype)
    } else {
        Ok(true)
    }
}

/// Under `verify_strictenc`, a public key must have the shape of one.
pub open spec fn spec_check_pubkey_encoding(v: Seq<u8>, flags: VerificationFlags) -> Result<
    bool,
    Error,
> {
    if flags.verify_strictenc && !spec_is_public_key(v) {
        Err(Error::PubkeyType)
    } else {
        Ok(true)
    }
}

/// Checks the encoding of a public key against the rules that `flags` select.
pub fn check_pubkey_encoding(v: &[u8], flags: &VerificationFlags) -> (r: Result<bool, Error>)
    ensures
        r == spec_check_pubkey_encoding(v@, *flags),
{
    if flags.verify_strictenc && !is_public_key(v) {
        return Err(Error::PubkeyType);
    }
    Ok(true)
}

} // verus!
