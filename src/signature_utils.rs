use crate::constants::{msg_prefix_bytes, MSG_PREFIX};
use crate::hex_text::{hex_decode, hex_encode, hex_encoded, lemma_hex_round_trip};
use libsecp256k1::Error as SecpError;
use sha3::Digest;
use vstd::prelude::*;
use vstd::slice::{slice_subrange, slice_to_vec};

verus! {

/// The Keccak-256 hash of `data`.
pub uninterp spec fn keccak256_of(data: Seq<u8>) -> Seq<u8>;

/// Relies on `sha3::Keccak256` (through `sha3::Digest::digest`): the 32-byte
/// Keccak-256 hash of `data`, which depends on `data` alone.
#[verifier::external_body]
pub fn keccak256(data: &[u8]) -> (r: Box<[u8]>)
    ensures
        r@ == keccak256_of(data@),
        r@.len() == 32,
{
    sha3::Keccak256::digest(data).to_vec().into_boxed_slice()
}

/// The digest that is signed for `message`: Keccak-256 over the prefix
/// followed by the message.
pub open spec fn digest_of(message: Seq<u8>) -> Seq<u8> {
    keccak256_of(msg_prefix_bytes() + message)
}

/// Builds the 32-byte digest of `data` under the domain-separation prefix.
pub fn make_digest(data: &Vec<u8>) -> (r: Vec<u8>)
    ensures
        r@ == digest_of(data@),
        r@.len() == 32,
{
    let mut msg_data: Vec<u8> = data.clone();
    let mut input: Vec<u8> = Vec::new();
    proof {
        reveal_strlit("\x19Ethereum Signed Message:\n32");
        assert(MSG_PREFIX@.len() == 28);
        assert(vstd::string::is_ascii(MSG_PREFIX));
        vstd::string::is_ascii_spec_bytes(MSG_PREFIX);
    }
    let mut msg: Vec<u8> = slice_to_vec(MSG_PREFIX.as_bytes());
    assert(msg@ == msg_prefix_bytes());
    input.append(&mut msg);
    input.append(&mut msg_data);
    let checkpoint = keccak256(input.as_slice());
    checkpoint.into_vec()
}

/// Why a signature could not be turned into an address.
#[derive(Debug, Clone, Copy, PartialEq, Eq, Structural)]
pub enum RecoveryError {
    /// The signature is not 65 bytes long, or the digest not 32.
    MalformedInput,
    /// The recovery byte does not stand for 0 or 1 (directly or as 27 or 28).
    InvalidRecoveryId,
    /// The curve library cannot read the digest as a message.
    InvalidDigest,
    /// `r` or `s` is not below the order of the curve.
    InvalidSignatureEncoding,
    /// No public key is consistent with the digest, signature and recovery id.
    RecoveryFailed,
}

impl RecoveryError {
    /// A short description, for diagnostics.
    pub fn message(&self) -> String {
        match self {
            RecoveryError::MalformedInput => "signature must be 65 bytes and digest 32 bytes".to_owned(),
            RecoveryError::InvalidRecoveryId => "unable to parse the recovery id".to_owned(),
            RecoveryError::InvalidDigest => "unable to create the message from hash".to_owned(),
            RecoveryError::InvalidSignatureEncoding => "unable to parse the signature".to_owned(),
            RecoveryError::RecoveryFailed => "unable to recover the public key".to_owned(),
        }
    }
}

/// The order `n` of the secp256k1 group.
pub open spec fn curve_order() -> nat {
    let high: nat = 0xFFFFFFFFFFFFFFFFFFFFFFFFFFFFFFFE;
    let low: nat = 0xBAAEDCE6AF48A03BBFD25E8CD0364141;
    high * 0x1_0000_0000_0000_0000 * 0x1_0000_0000_0000_0000 + low
}

/// The unsigned integer that `b` writes in big-endian order.
pub open spec fn big_endian_value(b: Seq<u8>) -> nat
    decreases b.len(),
{
    if b.len() == 0 {
        0
    } else {
        big_endian_value(b.drop_last()) * 256 + b.last() as nat
    }
}

/// A 64-byte `r || s` pair whose two halves are each below the curve order.
pub open spec fn is_standard_signature(rs: Seq<u8>) -> bool {
    &&& rs.len() == 64
    &&& big_endian_value(rs.subrange(0, 32)) < curve_order()
    &&& big_endian_value(rs.subrange(32, 64)) < curve_order()
}

/// The curve's signature type, carried through as an opaque value.
#[verifier::external_type_specification]
#[verifier::external_body]
pub struct ExSignature(libsecp256k1::Signature);

/// The curve's message type, carried through as an opaque value.
#[verifier::external_type_specification]
#[verifier::external_body]
pub struct ExMessage(libsecp256k1::Message);

/// The curve library's error type.
#[verifier::external_type_specification]
#[verifier::external_body]
pub struct ExSecpError(SecpError);

/// Relies on `libsecp256k1::Signature::parse_standard_slice`: it accepts exactly
/// 64 bytes whose halves `r` and `s`, read big-endian, are below the curve order.
pub assume_specification[ libsecp256k1::Signature::parse_standard_slice ](p: &[u8]) -> (r: Result<
    libsecp256k1::Signature,
    SecpError,
>)
    ensures
        r is Ok <==> is_standard_signature(p@),
;

/// Relies on `libsecp256k1::Message::parse_slice`: it accepts exactly 32 bytes.
pub assume_specification[ libsecp256k1::Message::parse_slice ](p: &[u8]) -> (r: Result<
    libsecp256k1::Message,
    SecpError,
>)
    ensures
        r is Ok <==> p@.len() == 32,
;

/// The uncompressed public key (`0x04 || X || Y`) that secp256k1 recovery gives
/// for a digest, an `r || s` pair and a recovery id, if there is one.
pub uninterp spec fn recovered_public_key(digest: Seq<u8>, rs: Seq<u8>, recovery_id: u8) -> Option<
    Seq<u8>,
>;

/// Relies on `libsecp256k1::recover`, its arguments read by
/// `Message::parse_slice`, `Signature::parse_standard_slice` and
/// `RecoveryId::parse`, and on `PublicKey::serialize`, which writes the
/// 65-byte uncompressed form starting with `0x04`.
#[verifier::external_body]
fn recover_public_key(digest: &[u8], rs: &[u8], recovery_id: u8) -> (r: Option<Vec<u8>>)
    requires
        digest@.len() == 32,
        is_standard_signature(rs@),
        recovery_id < 4,
    ensures
        r is Some <==> recovered_public_key(digest@, rs@, recovery_id) is Some,
        r matches Some(key) ==> {
            &&& recovered_public_key(digest@, rs@, recovery_id) == Some(key@)
            &&& key@.len() == 65
            &&& key@[0] == 4
        },
{
    let message = match libsecp256k1::Message::parse_slice(digest) { Ok(m) => m, Err(_) => return None };
    let sig = match libsecp256k1::Signature::parse_standard_slice(rs) { Ok(s) => s, Err(_) => return None };
    let id = match libsecp256k1::RecoveryId::parse(recovery_id) { Ok(i) => i, Err(_) => return None };
    match libsecp256k1::recover(&message, &sig, &id) {
        Ok(key) => Some(key.serialize().to_vec()),
        Err(_) => None,
    }
}

/// The recovery id that a recovery byte stands for: 27 and above are taken
/// in the Ethereum convention, as the id plus 27.
pub open spec fn normalized_recovery_id(v: u8) -> u8 {
    if v > 26 {
        (v - 27) as u8
    } else {
        v
    }
}

/// The 20-byte address of an uncompressed public key: the last 20 bytes of the
/// Keccak-256 hash of the key without its format byte.
pub open spec fn address_of_key(key: Seq<u8>) -> Seq<u8> {
    address_of_hash(keccak256_of(key.subrange(1, 65)))
}

/// The last 20 bytes of a 32-byte hash.
pub open spec fn address_of_hash(hash: Seq<u8>) -> Seq<u8> {
    hash.subrange(12, 32)
}

/// What recovering `signature` over `digest` gives: the signer's address, or
/// the first check that failed.
pub open spec fn recovery_result(signature: Seq<u8>, digest: Seq<u8>) -> Result<Seq<u8>, RecoveryError> {
    if signature.len() != 65 || digest.len() != 32 {
        Err(RecoveryError::MalformedInput)
    } else if normalized_recovery_id(signature[64]) > 1 {
        Err(RecoveryError::InvalidRecoveryId)
    } else if !is_standard_signature(signature.subrange(0, 64)) {
        Err(RecoveryError::InvalidSignatureEncoding)
    } else {
        match recovered_public_key(
            digest,
            signature.subrange(0, 64),
            normalized_recovery_id(signature[64]),
        ) {
            None => Err(RecoveryError::RecoveryFailed),
            Some(key) => Ok(address_of_key(key)),
        }
    }
}

/// Whether `signature` over `digest` was made by the holder of `signer`.
pub open spec fn signature_valid(signer: Seq<u8>, digest: Seq<u8>, signature: Seq<u8>) -> bool {
    recovery_result(signature, digest) == Ok::<Seq<u8>, RecoveryError>(signer)
}

/// Takes the address (the last 20 bytes) out of a 32-byte hash.
pub fn address_from_hash(hash: &[u8]) -> (r: Vec<u8>)
    requires
        hash@.len() == 32,
    ensures
        r@ == address_of_hash(hash@),
{
    let mut r: Vec<u8> = Vec::new();
    let mut i: usize = 12;
    while i < 32
        invariant
            hash@.len() == 32,
            12 <= i <= 32,
            r@ == hash@.subrange(12, i as int),
        decreases 32 - i,
    {
        r.push(hash[i]);
        i = i + 1;
        assert(r@ =~= hash@.subrange(12, i as int));
    }
    r
}

/// Derives the 20-byte address of a 65-byte uncompressed public key.
pub fn address_from_public_key(key: &[u8]) -> (r: Vec<u8>)
    requires
        key@.len() == 65,
    ensures
        r@ == address_of_key(key@),
{
    let hash = keccak256(slice_subrange(key, 1, 65));
    address_from_hash(&hash)
}

/// Recovers the address that signed `message_hash` from a 65-byte
/// `r || s || v` signature.
pub fn recover_address(signature: &[u8], message_hash: &[u8]) -> (r: Result<Vec<u8>, RecoveryError>)
    ensures
        match r {
            Ok(address) => recovery_result(signature@, message_hash@) == Ok::<Seq<u8>, RecoveryError>(address@),
            Err(e) => recovery_result(signature@, message_hash@) == Err::<Seq<u8>, RecoveryError>(e),
        },
{
    if signature.len() != 65 || message_hash.len() != 32 {
        return Err(RecoveryError::MalformedInput);
    }
    // In most implementations v is 0 or 1; Bitcoin message signing added 27
    // to it, and Ethereum took that convention over.
    let recovery_byte: u8 = if signature[64] > 26 {
        signature[64] - 27
    } else {
        signature[64]
    };
    if recovery_byte > 1 {
        return Err(RecoveryError::InvalidRecoveryId);
    }
    if libsecp256k1::Message::parse_slice(message_hash).is_err() {
        return Err(RecoveryError::InvalidDigest);
    }
    let rs = slice_subrange(signature, 0, 64);
    if libsecp256k1::Signature::parse_standard_slice(rs).is_err() {
        return Err(RecoveryError::InvalidSignatureEncoding);
    }
    match recover_public_key(message_hash, rs, recovery_byte) {
        None => Err(RecoveryError::RecoveryFailed),
        Some(key) => Ok(address_from_public_key(&key)),
    }
}

/// Recovers the signer of `message_hash` from `signature`. On success the
/// address goes to `output` as lower-case hexadecimal and the result is
/// `(true, None)`; otherwise `output` is left as it was and the result is
/// `false` with a diagnostic.
pub fn ecdsa_recover(signature: &[u8], message_hash: &[u8], output: &mut String) -> (r: (
    bool,
    Option<String>,
))
    ensures
        r.0 == recovery_result(signature@, message_hash@) is Ok,
        match recovery_result(signature@, message_hash@) {
            Ok(address) => final(output)@ == hex_encoded(address) && r.1 is None,
            Err(_) => *final(output) == *old(output) && r.1 is Some,
        },
{
    match recover_address(signature, message_hash) {
        Ok(address) => {
            *output = hex_encode(address.as_slice());
            (true, None)
        },
        Err(e) => (false, Some(e.message())),
    }
}

/// Whether two byte strings are equal.
fn bytes_equal(a: &[u8], b: &[u8]) -> (r: bool)
    ensures
        r == (a@ == b@),
{
    if a.len() != b.len() {
        return false;
    }
    let mut i: usize = 0;
    while i < a.len()
        invariant
            a@.len() == b@.len(),
            0 <= i <= a@.len(),
            a@.subrange(0, i as int) == b@.subrange(0, i as int),
        decreases a@.len() - i,
    {
        if a[i] != b[i] {
            assert(a@[i as int] != b@[i as int]);
            return false;
        }
        i = i + 1;
        assert(a@.subrange(0, i as int) =~= a@.subrange(0, i - 1 as int).push(a@[i - 1]));
        assert(b@.subrange(0, i as int) =~= b@.subrange(0, i - 1 as int).push(b@[i - 1]));
    }
    assert(a@ =~= a@.subrange(0, i as int));
    assert(b@ =~= b@.subrange(0, i as int));
    true
}

/// Verifies that `signature` over `message_digest` was made by the key whose
/// address is `signer`. Every failure to recover an address counts as `false`.
pub fn verify_sig(signer: &[u8; 20], message_digest: &[u8], signature: &[u8]) -> (r: bool)
    ensures
        r == signature_valid(signer@, message_digest@, signature@),
{
    let mut output: String = String::new();
    let res = ecdsa_recover(signature, message_digest, &mut output);
    if !res.0 {
        return false;
    }
    proof {
        lemma_hex_round_trip(recovery_result(signature@, message_digest@)->Ok_0);
    }
    match hex_decode(output.as_str()) {
        Err(_) => false,
        Ok(decoded) => bytes_equal(signer, decoded.as_slice()),
    }
}

/// A signature whose `r || s` half is in standard form, whose recovery byte is
/// 0 or 1 (or 27 or 28), and from which the curve recovers `key`, verifies
/// against the address of `key`.
pub proof fn lemma_recovered_key_verifies(
    key: Seq<u8>,
    digest: Seq<u8>,
    rs: Seq<u8>,
    recovery_byte: u8,
)
    requires
        digest.len() == 32,
        is_standard_signature(rs),
        recovery_byte == 0 || recovery_byte == 1 || recovery_byte == 27 || recovery_byte == 28,
        recovered_public_key(digest, rs, normalized_recovery_id(recovery_byte)) == Some(key),
    ensures
        signature_valid(address_of_key(key), digest, rs.push(recovery_byte)),
{
    let signature = rs.push(recovery_byte);
    assert(signature.subrange(0, 64) =~= rs);
}

/// A signature verifies against at most one address: checked against any
/// other signer it gives `false`.
pub proof fn lemma_one_signer(a: Seq<u8>, b: Seq<u8>, digest: Seq<u8>, signature: Seq<u8>)
    requires
        signature_valid(a, digest, signature),
        a != b,
    ensures
        !signature_valid(b, digest, signature),
{
}

/// Writing the recovery id as 27 or 28 instead of 0 or 1 changes neither the
/// recovered address nor the verdict for any signer.
pub proof fn lemma_recovery_byte_offset(signer: Seq<u8>, digest: Seq<u8>, signature: Seq<u8>)
    requires
        signature.len() == 65,
        signature[64] == 0 || signature[64] == 1,
    ensures
        recovery_result(signature.update(64, (signature[64] + 27) as u8), digest)
            == recovery_result(signature, digest),
        signature_valid(signer, digest, signature.update(64, (signature[64] + 27) as u8))
            == signature_valid(signer, digest, signature),
{
    let shifted = signature.update(64, (signature[64] + 27) as u8);
    assert(shifted.subrange(0, 64) =~= signature.subrange(0, 64));
}

/// A signature that is not 65 bytes long, or a digest that is not 32, is
/// reported as malformed input and never verifies.
pub proof fn lemma_malformed_input_rejected(signer: Seq<u8>, digest: Seq<u8>, signature: Seq<u8>)
    requires
        signature.len() != 65 || digest.len() != 32,
    ensures
        recovery_result(signature, digest) == Err::<Seq<u8>, RecoveryError>(
            RecoveryError::MalformedInput,
        ),
        !signature_valid(signer, digest, signature),
{
}

/// The digest of a message depends on the message alone.
pub proof fn lemma_digest_deterministic(m1: Seq<u8>, m2: Seq<u8>)
    requires
        m1 == m2,
    ensures
        digest_of(m1) == digest_of(m2),
{
}

} // verus!
