use base64::Engine;
use ed25519_dalek::{Signature, SigningKey, Verifier, VerifyingKey};
use intents_ark::crypto::{
    derive_public_key, generate_nonce, pad_nonce, sign_intent, sign_nep413_intent, Payload,
    SignError, MESSAGE_TAG,
};
use sha2::{Digest, Sha256};

const MESSAGE: &str =
    r#"{"signer_id":"test.near","deadline":"2025-01-01T00:00:00.000Z","intents":[]}"#;

fn b64(bytes: &[u8]) -> String {
    base64::engine::general_purpose::STANDARD.encode(bytes)
}

fn test_key_base58() -> String {
    let signing_key = SigningKey::from_bytes(&[1u8; 32]);
    bs58::encode(&signing_key.to_bytes()).into_string()
}

#[test]
fn test_nep413_signing() {
    let message = MESSAGE;
    let nonce = b64(&[0u8; 32]);
    let recipient = "intents.near";
    let private_key_base58 = test_key_base58();
    let result = sign_nep413_intent(message, &nonce, recipient, &private_key_base58);
    assert!(result.is_ok());
}

#[test]
fn signing_twice_gives_the_same_signature() {
    let nonce = b64(&[7u8; 32]);
    let key = test_key_base58();
    let first = sign_nep413_intent(MESSAGE, &nonce, "intents.near", &key).unwrap();
    let second = sign_nep413_intent(MESSAGE, &nonce, "intents.near", &key).unwrap();
    assert_eq!(first, second);
}

#[test]
fn signature_verifies_over_the_tagged_payload_hash() {
    let nonce_bytes = [9u8; 32];
    let key = test_key_base58();
    let (sig, pk) = sign_nep413_intent(MESSAGE, &b64(&nonce_bytes), "intents.near", &key).unwrap();
    let expected_pk = SigningKey::from_bytes(&[1u8; 32]).verifying_key();
    assert_eq!(pk, bs58::encode(expected_pk.to_bytes()).into_string());

    let body = borsh::to_vec(&(
        MESSAGE.to_string(),
        nonce_bytes,
        "intents.near".to_string(),
        Option::<String>::None,
    ))
    .unwrap();
    let mut preimage = (2_147_483_648u32 + 413).to_le_bytes().to_vec();
    preimage.extend_from_slice(&body);
    let hash = Sha256::digest(&preimage);

    let sig_bytes: [u8; 64] = bs58::decode(&sig).into_vec().unwrap().try_into().unwrap();
    let pk_bytes: [u8; 32] = bs58::decode(&pk).into_vec().unwrap().try_into().unwrap();
    let verifying = VerifyingKey::from_bytes(&pk_bytes).unwrap();
    assert!(verifying.verify(&hash, &Signature::from_bytes(&sig_bytes)).is_ok());
    assert_eq!(MESSAGE_TAG, 2_147_483_648u32 + 413);
}

#[test]
fn payload_bytes_match_the_canonical_encoding() {
    let payload = Payload {
        message: "hi".to_string(),
        nonce: [3u8; 32],
        recipient: "r.near".to_string(),
        callback_url: Some("cb".to_string()),
    };
    let expected = borsh::to_vec(&(
        "hi".to_string(),
        [3u8; 32],
        "r.near".to_string(),
        Some("cb".to_string()),
    ))
    .unwrap();
    assert_eq!(payload.to_bytes().unwrap(), expected);
}

#[test]
fn sixty_four_byte_key_signs_like_its_seed() {
    let signing_key = SigningKey::from_bytes(&[1u8; 32]);
    let mut pair = signing_key.to_bytes().to_vec();
    pair.extend_from_slice(&signing_key.verifying_key().to_bytes());
    let long_key = bs58::encode(&pair).into_string();
    let nonce = b64(&[0u8; 32]);
    let a = sign_nep413_intent(MESSAGE, &nonce, "intents.near", &long_key).unwrap();
    let b = sign_nep413_intent(MESSAGE, &nonce, "intents.near", &test_key_base58()).unwrap();
    assert_eq!(a, b);
}

#[test]
fn ten_byte_nonce_is_zero_padded() {
    let bytes: Vec<u8> = (1..=10).collect();
    let padded = pad_nonce(&bytes).unwrap();
    assert_eq!(&padded[..10], &bytes[..]);
    assert!(padded[10..].iter().all(|b| *b == 0));
    let short = sign_nep413_intent(MESSAGE, &b64(&bytes), "intents.near", &test_key_base58());
    let mut full = bytes.clone();
    full.resize(32, 0);
    let long = sign_nep413_intent(MESSAGE, &b64(&full), "intents.near", &test_key_base58());
    assert_eq!(short.unwrap(), long.unwrap());
}

#[test]
fn forty_byte_nonce_is_rejected() {
    let bytes = [5u8; 40];
    assert_eq!(pad_nonce(&bytes), Err(SignError::NonceTooLong));
    let r = sign_nep413_intent(MESSAGE, &b64(&bytes), "intents.near", &test_key_base58());
    assert_eq!(r, Err(SignError::NonceTooLong));
}

#[test]
fn malformed_inputs_are_reported() {
    let nonce = b64(&[0u8; 32]);
    assert_eq!(
        sign_nep413_intent(MESSAGE, &nonce, "intents.near", "0OIl"),
        Err(SignError::InvalidPrivateKey)
    );
    let short_key = bs58::encode(&[1u8; 16]).into_string();
    assert_eq!(
        sign_nep413_intent(MESSAGE, &nonce, "intents.near", &short_key),
        Err(SignError::InvalidKeyLength(16))
    );
    assert_eq!(
        sign_nep413_intent(MESSAGE, "***", "intents.near", &test_key_base58()),
        Err(SignError::InvalidNonce)
    );
    assert_eq!(SignError::InvalidKeyLength(16).message(), "Invalid private key length: 16");
}

#[test]
fn marked_keys_sign_and_derive() {
    let key = test_key_base58();
    let marked = format!("ed25519:{}", key);
    let nonce = b64(&[2u8; 32]);
    let plain = sign_nep413_intent(MESSAGE, &nonce, "intents.near", &key).unwrap();
    assert_eq!(sign_intent(MESSAGE, &nonce, &marked).unwrap(), plain.0);
    assert_eq!(sign_intent(MESSAGE, &nonce, &key).unwrap(), plain.0);
    assert_eq!(derive_public_key(&marked).unwrap(), format!("ed25519:{}", plain.1));
}

#[test]
fn nonce_is_the_hash_of_the_timestamp_text() {
    let nanos: u128 = 1_700_000_000_123_456_789;
    let expected = b64(&Sha256::digest(nanos.to_string().as_bytes()));
    assert_eq!(generate_nonce(nanos), expected);
    assert_ne!(generate_nonce(nanos), generate_nonce(nanos + 1));
}
