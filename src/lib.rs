//! Verification of Ethereum-style "personal sign" ECDSA signatures over
//! secp256k1: digest construction, public-key recovery and address derivation.

pub mod constants;
pub mod errors;
pub mod hex_text;
pub mod signature_utils;
