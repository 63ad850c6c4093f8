use base64::Engine;
use ed25519_dalek::{Signature as DalekSignature, SigningKey, Verifier};
use intents_ark::transaction::{
    decode_block_hash, function_call_transaction, sign_transaction, signed_function_call,
    AccessKey, AccessKeyPermission, Action, PublicKey, Signature, SignedTransaction, SigningKeys,
    Transaction, TxError,
};
use sha2::{Digest, Sha256};

fn keys() -> SigningKeys {
    let key = bs58::encode(&[1u8; 32]).into_string();
    SigningKeys::from_private_key(&format!("ed25519:{}", key)).unwrap()
}

#[test]
fn function_call_transaction_matches_the_canonical_encoding() {
    let k = keys();
    let tx = function_call_transaction(
        "worker.near", k.public_key, 41, "token.near", [9u8; 32], "ft_transfer_call", b"{}",
        300_000_000_000_000, 1,
    )
    .unwrap();
    assert_eq!(tx.nonce, 42);
    let mut expected = borsh::to_vec(&(
        "worker.near".to_string(),
        0u8,
        k.public_key,
        42u64,
        "token.near".to_string(),
        [9u8; 32],
        1u32,
        2u8,
    ))
    .unwrap();
    expected.extend(
        borsh::to_vec(&(
            "ft_transfer_call".to_string(),
            b"{}".to_vec(),
            300_000_000_000_000u64,
            1u128,
        ))
        .unwrap(),
    );
    assert_eq!(tx.to_bytes().unwrap(), expected);
}

#[test]
fn actions_keep_their_declared_order() {
    let pk = PublicKey::ED25519([4u8; 32]);
    let actions = vec![
        Action::CreateAccount,
        Action::DeployContract(vec![1, 2]),
        Action::Transfer(5),
        Action::Stake { stake: 6, public_key: pk.clone() },
        Action::AddKey {
            public_key: pk.clone(),
            access_key: AccessKey {
                nonce: 7,
                permission: AccessKeyPermission::FunctionCall {
                    allowance: Some(8),
                    receiver_id: "r".to_string(),
                    method_names: vec!["m".to_string()],
                },
            },
        },
        Action::AddKey {
            public_key: pk.clone(),
            access_key: AccessKey { nonce: 0, permission: AccessKeyPermission::FullAccess },
        },
        Action::DeleteKey(pk.clone()),
        Action::DeleteAccount("b".to_string()),
    ];
    let tx = Transaction {
        signer_id: "s".to_string(),
        public_key: pk.clone(),
        nonce: 1,
        receiver_id: "t".to_string(),
        block_hash: [0u8; 32],
        actions,
    };
    let mut expected =
        borsh::to_vec(&("s".to_string(), 0u8, [4u8; 32], 1u64, "t".to_string(), [0u8; 32], 8u32))
            .unwrap();
    expected.push(0);
    expected.extend(borsh::to_vec(&(1u8, vec![1u8, 2u8])).unwrap());
    expected.extend(borsh::to_vec(&(3u8, 5u128)).unwrap());
    expected.extend(borsh::to_vec(&(4u8, 6u128, 0u8, [4u8; 32])).unwrap());
    expected.extend(
        borsh::to_vec(&(
            5u8,
            0u8,
            [4u8; 32],
            7u64,
            0u8,
            Some(8u128),
            "r".to_string(),
            vec!["m".to_string()],
        ))
        .unwrap(),
    );
    expected.extend(borsh::to_vec(&(5u8, 0u8, [4u8; 32], 0u64, 1u8)).unwrap());
    expected.extend(borsh::to_vec(&(6u8, 0u8, [4u8; 32])).unwrap());
    expected.extend(borsh::to_vec(&(7u8, "b".to_string())).unwrap());
    assert_eq!(tx.to_bytes().unwrap(), expected);
}

#[test]
fn signed_transaction_verifies_and_encodes() {
    let k = keys();
    let tx = function_call_transaction(
        "worker.near", k.public_key, 0, "token.near", [3u8; 32], "storage_deposit", b"{}", 1, 2,
    )
    .unwrap();
    let tx_bytes = tx.to_bytes().unwrap();
    let signed: SignedTransaction = sign_transaction(&k, tx).unwrap();
    let sig = match signed.signature {
        Signature::ED25519(s) => s,
    };
    let verifying = SigningKey::from_bytes(&[1u8; 32]).verifying_key();
    assert_eq!(verifying.to_bytes(), k.public_key);
    let digest = Sha256::digest(&tx_bytes);
    assert!(verifying.verify(&digest, &DalekSignature::from_bytes(&sig)).is_ok());
    let mut expected = tx_bytes.clone();
    expected.push(0);
    expected.extend_from_slice(&sig);
    assert_eq!(signed.to_bytes().unwrap(), expected);

    let text = signed_function_call(
        &k, "worker.near", 0, "token.near", [3u8; 32], "storage_deposit", b"{}", 1, 2,
    )
    .unwrap();
    assert_eq!(text, base64::engine::general_purpose::STANDARD.encode(&expected));
}

#[test]
fn exhausted_nonce_is_refused() {
    let k = keys();
    let r = function_call_transaction("a", k.public_key, u64::MAX, "b", [0u8; 32], "m", b"", 1, 1);
    assert_eq!(r, Err(TxError::NonceExhausted));
}

#[test]
fn block_hash_must_be_32_bytes() {
    let good = bs58::encode(&[5u8; 32]).into_string();
    assert_eq!(decode_block_hash(&good), Ok([5u8; 32]));
    let short = bs58::encode(&[5u8; 31]).into_string();
    assert_eq!(decode_block_hash(&short), Err(TxError::BlockHashLength(31)));
    assert_eq!(decode_block_hash("0"), Err(TxError::InvalidBlockHash));
}

#[test]
fn public_key_text_is_marked_base58() {
    let k = keys();
    let expected = SigningKey::from_bytes(&[1u8; 32]).verifying_key();
    assert_eq!(k.public_key_text(), format!("ed25519:{}", bs58::encode(expected.to_bytes()).into_string()));
}
