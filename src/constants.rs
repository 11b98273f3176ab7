use vstd::prelude::*;

verus! {

/// A 20-byte account identifier.
pub type Bytes20 = [u8; 20];

/// A 32-byte value such as a digest.
pub type Bytes32 = [u8; 32];

/// A byte string of any length.
pub type Bytes = Vec<u8>;

/// A validator set: the validators' addresses, their voting powers (one per
/// validator) and the nonce of the set.
#[derive(Debug, Clone, PartialEq, Eq)]
pub struct ValsetArgs {
    pub validators: Vec<Bytes20>,
    pub powers: Vec<u64>,
    pub valset_nonce: u128,
}

/// Domain-separation prefix put in front of a message before it is hashed.
pub const MSG_PREFIX: &'static str = "\x19Ethereum Signed Message:\n32";

/// Name of the entry point that verifies a signature.
pub const VERIFY_SIG: &'static str = "verify_sig";

/// The bytes of `MSG_PREFIX`.
pub open spec fn msg_prefix_bytes() -> Seq<u8> {
    seq![
        0x19u8, 0x45u8, 0x74u8, 0x68u8, 0x65u8, 0x72u8, 0x65u8, 0x75u8, 0x6du8, 0x20u8,
        0x53u8, 0x69u8, 0x67u8, 0x6eu8, 0x65u8, 0x64u8, 0x20u8, 0x4du8, 0x65u8, 0x73u8,
        0x73u8, 0x61u8, 0x67u8, 0x65u8, 0x3au8, 0x0au8, 0x33u8, 0x32u8,
    ]
}

} // verus!
