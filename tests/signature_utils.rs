use libsecp256k1::{Message, PublicKey, SecretKey};
use sha3::{Digest, Keccak256};
use sig_bridge::constants::{ValsetArgs, MSG_PREFIX};
use sig_bridge::errors::Error;
use sig_bridge::signature_utils::{
    address_from_hash, address_from_public_key, ecdsa_recover, keccak256, make_digest,
    recover_address, verify_sig, RecoveryError,
};

const TEST_KEY: &str = "4c0883a69102937d6231471b5dbb6204fe5129617082792ae468d01a3f362318";
const TEST_ADDRESS: &str = "2c7536e3605d9c16a7a3d7b1898e529396a65c23";

fn secret_key(hex_key: &str) -> SecretKey {
    let bytes = hex::decode(hex_key).unwrap();
    SecretKey::parse_slice(&bytes).unwrap()
}

fn key_from_seed(seed: u8) -> SecretKey {
    let mut bytes = [0u8; 32];
    bytes[31] = seed;
    bytes[0] = 0x11;
    SecretKey::parse(&bytes).unwrap()
}

fn address_of(sk: &SecretKey) -> [u8; 20] {
    let pk = PublicKey::from_secret_key(sk).serialize();
    let hash = Keccak256::digest(&pk[1..]);
    let mut out = [0u8; 20];
    out.copy_from_slice(&hash[12..]);
    out
}

/// Signs `digest` with `sk` and appends the recovery id plus `offset`.
fn sign(sk: &SecretKey, digest: &[u8], offset: u8) -> Vec<u8> {
    let message = Message::parse_slice(digest).unwrap();
    let (sig, id) = libsecp256k1::sign(&message, sk);
    let mut out = sig.serialize().to_vec();
    out.push(id.serialize() + offset);
    out
}

#[test]
fn prefix_is_personal_sign_for_32_bytes() {
    assert_eq!(MSG_PREFIX.as_bytes().len(), 28);
    assert_eq!(MSG_PREFIX.as_bytes()[0], 0x19);
    assert!(MSG_PREFIX.ends_with("Ethereum Signed Message:\n32"));
}

#[test]
fn keccak256_of_empty_input() {
    let h = keccak256(&[]);
    assert_eq!(
        hex::encode(&h),
        "c5d2460186f7233c927e7db2dcc703c0e500b653ca82273b7bfad8045d85a470"
    );
}

#[test]
fn make_digest_hashes_prefix_and_message() {
    let message = b"transfer".to_vec();
    let mut input = MSG_PREFIX.as_bytes().to_vec();
    input.extend_from_slice(&message);
    let expected = Keccak256::digest(&input).to_vec();
    assert_eq!(make_digest(&message), expected);
    assert_ne!(make_digest(&message), message);
}

#[test]
fn make_digest_is_32_bytes_for_any_length() {
    assert_eq!(make_digest(&Vec::new()).len(), 32);
    assert_eq!(make_digest(&vec![7u8; 1]).len(), 32);
    assert_eq!(make_digest(&vec![7u8; 1000]).len(), 32);
}

#[test]
fn make_digest_is_deterministic_and_separates_messages() {
    let a = make_digest(&b"alpha".to_vec());
    let b = make_digest(&b"alpha".to_vec());
    let c = make_digest(&b"alphb".to_vec());
    assert_eq!(a, b);
    assert_ne!(a, c);
}

#[test]
fn address_from_hash_takes_last_twenty_bytes() {
    let hash: Vec<u8> = (0u8..32).collect();
    assert_eq!(address_from_hash(&hash), (12u8..32).collect::<Vec<u8>>());
}

#[test]
fn address_of_known_key() {
    let sk = secret_key(TEST_KEY);
    let pk = PublicKey::from_secret_key(&sk).serialize();
    assert_eq!(hex::encode(address_from_public_key(&pk)), TEST_ADDRESS);
}

#[test]
fn transfer_scenario_verifies_and_flipped_last_byte_fails() {
    let sk = secret_key(TEST_KEY);
    let signer: [u8; 20] = hex::decode(TEST_ADDRESS).unwrap().try_into().unwrap();
    let digest = make_digest(&b"transfer".to_vec());
    let mut signature = sign(&sk, &digest, 27);
    assert!(signature[64] == 27 || signature[64] == 28);
    assert!(verify_sig(&signer, &digest, &signature));
    signature[64] ^= 0x01;
    assert!(!verify_sig(&signer, &digest, &signature));
}

#[test]
fn round_trip_for_several_keys_and_messages() {
    for seed in 1u8..6 {
        let sk = key_from_seed(seed);
        let signer = address_of(&sk);
        for message in [b"".to_vec(), b"valset".to_vec(), vec![seed; 100]] {
            let digest = make_digest(&message);
            let signature = sign(&sk, &digest, 0);
            assert!(verify_sig(&signer, &digest, &signature));
            assert_eq!(recover_address(&signature, &digest), Ok(signer.to_vec()));
        }
    }
}

#[test]
fn mutating_any_byte_rejects() {
    let sk = key_from_seed(9);
    let signer = address_of(&sk);
    let digest = make_digest(&b"payload".to_vec());
    let signature = sign(&sk, &digest, 27);
    for i in 0..65 {
        let mut changed = signature.clone();
        changed[i] ^= 0x01;
        assert!(!verify_sig(&signer, &digest, &changed), "byte {}", i);
    }
}

#[test]
fn wrong_signer_rejects() {
    let a = key_from_seed(1);
    let b = key_from_seed(2);
    let digest = make_digest(&b"payload".to_vec());
    let signature = sign(&a, &digest, 27);
    assert!(verify_sig(&address_of(&a), &digest, &signature));
    assert!(!verify_sig(&address_of(&b), &digest, &signature));
}

#[test]
fn recovery_byte_offset_gives_same_result() {
    let sk = key_from_seed(3);
    let digest = make_digest(&b"offset".to_vec());
    let low = sign(&sk, &digest, 0);
    let high = sign(&sk, &digest, 27);
    assert_eq!(high[64], low[64] + 27);
    assert_eq!(recover_address(&low, &digest), recover_address(&high, &digest));
    let signer = address_of(&sk);
    assert_eq!(verify_sig(&signer, &digest, &low), verify_sig(&signer, &digest, &high));
    let other = address_of(&key_from_seed(4));
    assert_eq!(verify_sig(&other, &digest, &low), verify_sig(&other, &digest, &high));
}

#[test]
fn wrong_lengths_are_malformed_input() {
    let sk = key_from_seed(5);
    let signer = address_of(&sk);
    let digest = make_digest(&b"len".to_vec());
    let signature = sign(&sk, &digest, 27);
    assert_eq!(recover_address(&signature[..64], &digest), Err(RecoveryError::MalformedInput));
    assert_eq!(recover_address(&signature, &digest[..31]), Err(RecoveryError::MalformedInput));
    assert_eq!(recover_address(&[], &[]), Err(RecoveryError::MalformedInput));
    let mut longer = signature.clone();
    longer.push(0);
    assert!(!verify_sig(&signer, &digest, &longer));
    assert!(!verify_sig(&signer, &digest[..31], &signature));
    assert!(!verify_sig(&signer, &digest, &[]));
}

#[test]
fn bad_recovery_id_is_rejected() {
    let sk = key_from_seed(6);
    let digest = make_digest(&b"id".to_vec());
    let mut signature = sign(&sk, &digest, 0);
    for v in [2u8, 3, 26, 29, 30, 255] {
        signature[64] = v;
        assert_eq!(recover_address(&signature, &digest), Err(RecoveryError::InvalidRecoveryId));
    }
}

#[test]
fn out_of_range_scalars_are_invalid_encoding() {
    let digest = make_digest(&b"range".to_vec());
    let mut signature = vec![0xFFu8; 65];
    signature[64] = 27;
    assert_eq!(
        recover_address(&signature, &digest),
        Err(RecoveryError::InvalidSignatureEncoding)
    );
}

#[test]
fn zero_signature_fails_recovery() {
    let digest = make_digest(&b"zero".to_vec());
    let signature = vec![0u8; 65];
    assert_eq!(recover_address(&signature, &digest), Err(RecoveryError::RecoveryFailed));
}

#[test]
fn ecdsa_recover_writes_hex_address() {
    let sk = secret_key(TEST_KEY);
    let digest = make_digest(&b"transfer".to_vec());
    let signature = sign(&sk, &digest, 27);
    let mut output = String::new();
    let res = ecdsa_recover(&signature, &digest, &mut output);
    assert!(res.0);
    assert!(res.1.is_none());
    assert_eq!(output, TEST_ADDRESS);
}

#[test]
fn ecdsa_recover_reports_failure_without_output() {
    let mut output = String::from("unchanged");
    let res = ecdsa_recover(&[1, 2, 3], &[0u8; 32], &mut output);
    assert!(!res.0);
    assert!(res.1.is_some());
    assert_eq!(output, "unchanged");
}

#[test]
fn error_codes() {
    assert_eq!(Error::FatalError.code(), 1);
    assert_eq!(Error::SignatureValidatorsLengthMismatch.code(), 2);
}

#[test]
fn valset_args_holds_fields() {
    let v = ValsetArgs { validators: vec![[1u8; 20]], powers: vec![10], valset_nonce: 7 };
    assert_eq!(v.clone(), v);
    assert_eq!(v.powers.len(), v.validators.len());
}
