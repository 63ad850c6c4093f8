//! Ledger transactions: their closed set of actions, their canonical bytes,
//! and signing them.
//!
//! Each enum is encoded as a one-byte variant index in declaration order,
//! followed by the variant's fields; the order is part of the signed bytes.
use vstd::prelude::*;
use crate::crypto::{decode_seed, key_prefix, KEY_PREFIX, seed_from_key, SignError};
use crate::encoding::{
    enc_bytes, enc_str, enc_str_list, enc_u128, enc_u32, enc_u64, prefixable, put_bytes, put_raw,
    put_str, put_str_list, put_u128, put_u32, put_u64, put_u8, str_prefixable, strs_prefixable,
    MAX_PREFIXED_LEN,
};
use crate::primitives::{
    base58_decode, base58_decoded, base58_encode, base58_of, base64_encode, base64_of,
    ed25519_public_key, ed25519_public_of, ed25519_sign, ed25519_signature_of, sha256, sha256_of,
};
use crate::text::{trim_prefix, without_prefix};
use vstd::slice::slice_to_vec;

verus! {

#[derive(Debug, Clone, PartialEq, Eq)]
pub enum PublicKey {
    ED25519([u8; 32]),
}

#[derive(Debug, Clone, PartialEq, Eq)]
pub struct FunctionCallAction {
    pub method_name: String,
    pub args: Vec<u8>,
    pub gas: u64,
    pub deposit: u128,
}

#[derive(Debug, Clone, PartialEq, Eq)]
pub enum AccessKeyPermission {
    FunctionCall { allowance: Option<u128>, receiver_id: String, method_names: Vec<String> },
    FullAccess,
}

#[derive(Debug, Clone, PartialEq, Eq)]
pub struct AccessKey {
    pub nonce: u64,
    pub permission: AccessKeyPermission,
}

#[derive(Debug, Clone, PartialEq, Eq)]
pub enum Action {
    CreateAccount,
    DeployContract(Vec<u8>),
    FunctionCall(FunctionCallAction),
    Transfer(u128),
    Stake { stake: u128, public_key: PublicKey },
    AddKey { public_key: PublicKey, access_key: AccessKey },
    DeleteKey(PublicKey),
    DeleteAccount(String),
}

#[derive(Debug, Clone, PartialEq, Eq)]
pub struct Transaction {
    pub signer_id: String,
    pub public_key: PublicKey,
    pub nonce: u64,
    pub receiver_id: String,
    pub block_hash: [u8; 32],
    pub actions: Vec<Action>,
}

#[derive(Debug, Clone, PartialEq, Eq)]
pub enum Signature {
    ED25519([u8; 64]),
}

#[derive(Debug, Clone, PartialEq, Eq)]
pub struct SignedTransaction {
    pub transaction: Transaction,
    pub signature: Signature,
}

/// Why a transaction could not be built or signed.
#[derive(Debug, Clone, PartialEq, Eq)]
pub enum TxError {
    /// The signing key could not be read.
    Key(SignError),
    /// The access key's nonce is already the largest there is.
    NonceExhausted,
    /// A text or byte field is too long to be encoded.
    TooLarge,
    /// A block hash is not valid base58.
    InvalidBlockHash,
    /// A block hash decodes to this many bytes instead of 32.
    BlockHashLength(usize),
}

pub open spec fn public_key_bytes(pk: PublicKey) -> Seq<u8> {
    match pk {
        PublicKey::ED25519(k) => seq![0u8] + k@,
    }
}

pub open spec fn function_call_bytes(f: FunctionCallAction) -> Seq<u8> {
    enc_str(f.method_name@) + enc_bytes(f.args@) + enc_u64(f.gas as nat) + enc_u128(f.deposit as nat)
}

pub open spec fn function_call_encodable(f: FunctionCallAction) -> bool {
    str_prefixable(f.method_name@) && prefixable(f.args@.len())
}

pub open spec fn names_view(names: Vec<String>) -> Seq<Seq<char>> {
    names@.map_values(|s: String| s@)
}

pub open spec fn permission_bytes(p: AccessKeyPermission) -> Seq<u8> {
    match p {
        AccessKeyPermission::FunctionCall { allowance, receiver_id, method_names } => seq![0u8]
            + match allowance {
            Some(a) => seq![1u8] + enc_u128(a as nat),
            None => seq![0u8],
        } + enc_str(receiver_id@) + enc_str_list(names_view(method_names)),
        AccessKeyPermission::FullAccess => seq![1u8],
    }
}

pub open spec fn permission_encodable(p: AccessKeyPermission) -> bool {
    match p {
        AccessKeyPermission::FunctionCall { allowance, receiver_id, method_names } =>
            str_prefixable(receiver_id@) && strs_prefixable(names_view(method_names)),
        AccessKeyPermission::FullAccess => true,
    }
}

pub open spec fn action_bytes(a: Action) -> Seq<u8> {
    match a {
        Action::CreateAccount => seq![0u8],
        Action::DeployContract(code) => seq![1u8] + enc_bytes(code@),
        Action::FunctionCall(f) => seq![2u8] + function_call_bytes(f),
        Action::Transfer(amount) => seq![3u8] + enc_u128(amount as nat),
        Action::Stake { stake, public_key } => seq![4u8] + enc_u128(stake as nat)
            + public_key_bytes(public_key),
        Action::AddKey { public_key, access_key } => seq![5u8] + public_key_bytes(public_key)
            + enc_u64(access_key.nonce as nat) + permission_bytes(access_key.permission),
        Action::DeleteKey(public_key) => seq![6u8] + public_key_bytes(public_key),
        Action::DeleteAccount(beneficiary) => seq![7u8] + enc_str(beneficiary@),
    }
}

pub open spec fn action_encodable(a: Action) -> bool {
    match a {
        Action::DeployContract(code) => prefixable(code@.len()),
        Action::FunctionCall(f) => function_call_encodable(f),
        Action::AddKey { public_key, access_key } => permission_encodable(access_key.permission),
        Action::DeleteAccount(beneficiary) => str_prefixable(beneficiary@),
        _ => true,
    }
}

pub open spec fn action_items(actions: Seq<Action>) -> Seq<u8>
    decreases actions.len(),
{
    if actions.len() == 0 {
        Seq::empty()
    } else {
        action_items(actions.drop_last()) + action_bytes(actions.last())
    }
}

pub open spec fn actions_bytes(actions: Seq<Action>) -> Seq<u8> {
    enc_u32(actions.len()) + action_items(actions)
}

pub open spec fn actions_encodable(actions: Seq<Action>) -> bool {
    prefixable(actions.len()) && forall|i: int|
        0 <= i < actions.len() ==> action_encodable(#[trigger] actions[i])
}

pub open spec fn signature_bytes(s: Signature) -> Seq<u8> {
    match s {
        Signature::ED25519(sig) => seq![0u8] + sig@,
    }
}

impl Transaction {
    /// The canonical bytes of the transaction: the bytes that are hashed and signed.
    pub open spec fn spec_bytes(&self) -> Seq<u8> {
        enc_str(self.signer_id@) + public_key_bytes(self.public_key) + enc_u64(self.nonce as nat)
            + enc_str(self.receiver_id@) + self.block_hash@ + actions_bytes(self.actions@)
    }

    pub open spec fn encodable(&self) -> bool {
        str_prefixable(self.signer_id@) && str_prefixable(self.receiver_id@) && actions_encodable(
            self.actions@,
        )
    }

    /// The canonical bytes of the transaction, or nothing when a field is too long.
    pub fn to_bytes(&self) -> (r: Option<Vec<u8>>)
        ensures
            r is Some <==> self.encodable(),
            r matches Some(b) ==> b@ == self.spec_bytes(),
    {
        let mut out: Vec<u8> = Vec::new();
        if !put_str(&mut out, self.signer_id.as_str()) {
            return None;
        }
        put_public_key(&mut out, &self.public_key);
        put_u64(&mut out, self.nonce);
        if !put_str(&mut out, self.receiver_id.as_str()) {
            return None;
        }
        put_raw(&mut out, self.block_hash.as_slice());
        if !put_actions(&mut out, &self.actions) {
            return None;
        }
        assert(out@ =~= self.spec_bytes());
        Some(out)
    }
}

impl SignedTransaction {
    pub open spec fn spec_bytes(&self) -> Seq<u8> {
        self.transaction.spec_bytes() + signature_bytes(self.signature)
    }

    pub open spec fn encodable(&self) -> bool {
        self.transaction.encodable()
    }

    /// The canonical bytes of the signed transaction: the transaction's,
    /// then the signature's.
    pub fn to_bytes(&self) -> (r: Option<Vec<u8>>)
        ensures
            r is Some <==> self.encodable(),
            r matches Some(b) ==> b@ == self.spec_bytes(),
    {
        let mut out = match self.transaction.to_bytes() {
            Some(b) => b,
            None => return None,
        };
        match &self.signature {
            Signature::ED25519(sig) => {
                put_u8(&mut out, 0);
                put_raw(&mut out, sig.as_slice());
            },
        }
        assert(out@ =~= self.spec_bytes());
        Some(out)
    }
}

fn put_public_key(out: &mut Vec<u8>, pk: &PublicKey)
    ensures
        final(out)@ == old(out)@ + public_key_bytes(*pk),
{
    match pk {
        PublicKey::ED25519(k) => {
            put_u8(out, 0);
            put_raw(out, k.as_slice());
        },
    }
    assert(out@ =~= old(out)@ + public_key_bytes(*pk));
}

fn put_permission(out: &mut Vec<u8>, p: &AccessKeyPermission) -> (ok: bool)
    ensures
        ok == permission_encodable(*p),
        ok ==> final(out)@ == old(out)@ + permission_bytes(*p),
{
    match p {
        AccessKeyPermission::FunctionCall { allowance, receiver_id, method_names } => {
            put_u8(out, 0);
            match allowance {
                Some(a) => {
                    put_u8(out, 1);
                    put_u128(out, *a);
                },
                None => {
                    put_u8(out, 0);
                },
            }
            if !put_str(out, receiver_id.as_str()) {
                return false;
            }
            if !put_str_list(out, method_names) {
                return false;
            }
        },
        AccessKeyPermission::FullAccess => {
            put_u8(out, 1);
        },
    }
    assert(out@ =~= old(out)@ + permission_bytes(*p));
    true
}

fn put_action(out: &mut Vec<u8>, a: &Action) -> (ok: bool)
    ensures
        ok == action_encodable(*a),
        ok ==> final(out)@ == old(out)@ + action_bytes(*a),
{
    match a {
        Action::CreateAccount => {
            put_u8(out, 0);
        },
        Action::DeployContract(code) => {
            put_u8(out, 1);
            if !put_bytes(out, code.as_slice()) {
                return false;
            }
        },
        Action::FunctionCall(f) => {
            put_u8(out, 2);
            if !put_str(out, f.method_name.as_str()) {
                return false;
            }
            if !put_bytes(out, f.args.as_slice()) {
                return false;
            }
            put_u64(out, f.gas);
            put_u128(out, f.deposit);
        },
        Action::Transfer(amount) => {
            put_u8(out, 3);
            put_u128(out, *amount);
        },
        Action::Stake { stake, public_key } => {
            put_u8(out, 4);
            put_u128(out, *stake);
            put_public_key(out, public_key);
        },
        Action::AddKey { public_key, access_key } => {
            put_u8(out, 5);
            put_public_key(out, public_key);
            put_u64(out, access_key.nonce);
            if !put_permission(out, &access_key.permission) {
                return false;
            }
        },
        Action::DeleteKey(public_key) => {
            put_u8(out, 6);
            put_public_key(out, public_key);
        },
        Action::DeleteAccount(beneficiary) => {
            put_u8(out, 7);
            if !put_str(out, beneficiary.as_str()) {
                return false;
            }
        },
    }
    assert(out@ =~= old(out)@ + action_bytes(*a));
    true
}

fn put_actions(out: &mut Vec<u8>, actions: &Vec<Action>) -> (ok: bool)
    ensures
        ok == actions_encodable(actions@),
        ok ==> final(out)@ == old(out)@ + actions_bytes(actions@),
{
    if actions.len() > MAX_PREFIXED_LEN {
        return false;
    }
    let mut body: Vec<u8> = Vec::new();
    put_u32(&mut body, actions.len() as u32);
    let mut i: usize = 0;
    while i < actions.len()
        invariant
            i <= actions@.len() <= MAX_PREFIXED_LEN,
            forall|k: int| 0 <= k < i ==> action_encodable(#[trigger] actions@[k]),
            body@ == enc_u32(actions@.len() as nat) + action_items(actions@.subrange(0, i as int)),
        decreases actions@.len() - i,
    {
        if !put_action(&mut body, &actions[i]) {
            return false;
        }
        proof {
            let pre = actions@.subrange(0, i + 1);
            assert(pre.drop_last() =~= actions@.subrange(0, i as int));
            assert(pre.last() == actions@[i as int]);
            assert(body@ =~= enc_u32(actions@.len() as nat) + action_items(pre));
        }
        i = i + 1;
    }
    assert(actions@.subrange(0, actions@.len() as int) =~= actions@);
    put_raw(out, body.as_slice());
    true
}

/// The key pair that signs transactions: a 32-byte seed and its public key.
#[derive(Debug, Clone, PartialEq, Eq)]
pub struct SigningKeys {
    pub seed: [u8; 32],
    pub public_key: [u8; 32],
}

impl SigningKeys {
    pub open spec fn wf(&self) -> bool {
        self.public_key@ == ed25519_public_of(self.seed@)
    }

    /// The key pair of a base58 private key that may carry the `ed25519:`
    /// marker (a 32-byte seed, or a 64-byte seed-and-public-key pair).
    pub fn from_private_key(private_key: &str) -> (r: Result<SigningKeys, SignError>)
        ensures
            match r {
                Ok(keys) => keys.wf() && seed_from_key(without_prefix(private_key@, key_prefix()))
                    == Ok::<Seq<u8>, SignError>(keys.seed@),
                Err(e) => seed_from_key(without_prefix(private_key@, key_prefix())) == Err::<
                    Seq<u8>,
                    SignError,
                >(e),
            },
    {
        let seed = decode_seed(trim_prefix(private_key, KEY_PREFIX))?;
        let public_key = ed25519_public_key(&seed);
        Ok(SigningKeys { seed, public_key })
    }

    /// The public key as the ledger's RPC names it: `ed25519:` and its base58 text.
    pub fn public_key_text(&self) -> (r: String)
        ensures
            r@ == key_prefix() + base58_of(self.public_key@),
    {
        let text = base58_encode(self.public_key.as_slice());
        String::from_str(KEY_PREFIX).concat(text.as_str())
    }
}

/// Reads a block hash from its base58 text; it must be 32 bytes.
pub fn decode_block_hash(text: &str) -> (r: Result<[u8; 32], TxError>)
    ensures
        match base58_decoded(text@) {
            None => r == Err::<[u8; 32], TxError>(TxError::InvalidBlockHash),
            Some(b) => if b.len() == 32 {
                r matches Ok(h) && h@ == b
            } else {
                r == Err::<[u8; 32], TxError>(TxError::BlockHashLength(b.len() as usize))
            },
        },
{
    match base58_decode(text) {
        None => Err(TxError::InvalidBlockHash),
        Some(bytes) => {
            if bytes.len() != 32 {
                return Err(TxError::BlockHashLength(bytes.len()));
            }
            let mut h = [0u8; 32];
            let mut i: usize = 0;
            while i < 32
                invariant
                    i <= 32,
                    bytes@.len() == 32,
                    forall|j: int| 0 <= j < i ==> h@[j] == bytes@[j],
                decreases 32 - i,
            {
                h[i] = bytes[i];
                i = i + 1;
            }
            assert(h@ =~= bytes@);
            Ok(h)
        },
    }
}

/// Whether `tx` is signed by `signer_id` with `nonce` and makes exactly one
/// function call on `receiver_id`.
pub open spec fn is_single_call(
    tx: Transaction,
    signer_id: Seq<char>,
    public_key: Seq<u8>,
    nonce: u64,
    receiver_id: Seq<char>,
    block_hash: Seq<u8>,
    method_name: Seq<char>,
    args: Seq<u8>,
    gas: u64,
    deposit: u128,
) -> bool {
    &&& tx.signer_id@ == signer_id
    &&& tx.public_key matches PublicKey::ED25519(k) && k@ == public_key
    &&& tx.nonce == nonce
    &&& tx.receiver_id@ == receiver_id
    &&& tx.block_hash@ == block_hash
    &&& tx.actions@.len() == 1
    &&& tx.actions@[0] matches Action::FunctionCall(f) && f.method_name@ == method_name
        && f.args@ == args && f.gas == gas && f.deposit == deposit
}

/// A transaction that makes one function call, with the nonce that follows
/// the access key's current nonce.
pub fn function_call_transaction(
    signer_id: &str,
    public_key: [u8; 32],
    access_key_nonce: u64,
    receiver_id: &str,
    block_hash: [u8; 32],
    method_name: &str,
    args: &[u8],
    gas: u64,
    deposit: u128,
) -> (r: Result<Transaction, TxError>)
    ensures
        access_key_nonce == u64::MAX ==> r == Err::<Transaction, TxError>(TxError::NonceExhausted),
        access_key_nonce < u64::MAX ==> (r matches Ok(tx) && is_single_call(
            tx,
            signer_id@,
            public_key@,
            (access_key_nonce + 1) as u64,
            receiver_id@,
            block_hash@,
            method_name@,
            args@,
            gas,
            deposit,
        )),
{
    if access_key_nonce == u64::MAX {
        return Err(TxError::NonceExhausted);
    }
    let call = FunctionCallAction {
        method_name: String::from_str(method_name),
        args: slice_to_vec(args),
        gas,
        deposit,
    };
    let mut actions: Vec<Action> = Vec::new();
    actions.push(Action::FunctionCall(call));
    Ok(
        Transaction {
            signer_id: String::from_str(signer_id),
            public_key: PublicKey::ED25519(public_key),
            nonce: access_key_nonce + 1,
            receiver_id: String::from_str(receiver_id),
            block_hash,
            actions,
        },
    )
}

/// Signs a transaction: the ed25519 signature, under the seed, of the
/// SHA-256 digest of the transaction's canonical bytes.
pub fn sign_transaction(keys: &SigningKeys, transaction: Transaction) -> (r: Result<
    SignedTransaction,
    TxError,
>)
    ensures
        r is Ok <==> transaction.encodable(),
        r matches Ok(signed) ==> signed.transaction == transaction && signed.signature
            == Signature::ED25519(signed.signature->ED25519_0) && signed.signature->ED25519_0@
            == ed25519_signature_of(keys.seed@, sha256_of(transaction.spec_bytes())),
        r matches Err(e) ==> e == TxError::TooLarge,
{
    let bytes = match transaction.to_bytes() {
        Some(b) => b,
        None => return Err(TxError::TooLarge),
    };
    let digest = sha256(bytes.as_slice());
    let signature = ed25519_sign(&keys.seed, digest.as_slice());
    Ok(SignedTransaction { transaction, signature: Signature::ED25519(signature) })
}

/// The signed transaction as the ledger's RPC takes it: base64 text of its
/// canonical bytes.
pub fn signed_transaction_base64(signed: &SignedTransaction) -> (r: Result<String, TxError>)
    ensures
        r is Ok <==> signed.encodable() && signed.spec_bytes().len() <= usize::MAX / 2,
        r matches Ok(text) ==> text@ == base64_of(signed.spec_bytes()),
        r matches Err(e) ==> e == TxError::TooLarge,
{
    let bytes = match signed.to_bytes() {
        Some(b) => b,
        None => return Err(TxError::TooLarge),
    };
    if bytes.len() > usize::MAX / 2 {
        return Err(TxError::TooLarge);
    }
    Ok(base64_encode(bytes.as_slice()))
}

/// Whether the one-call transaction with these fields can be encoded, and its
/// signed bytes (the transaction's and 65 bytes of signature) are short
/// enough for base64 text.
pub open spec fn call_fits(
    signer_id: Seq<char>,
    public_key: Seq<u8>,
    nonce: u64,
    receiver_id: Seq<char>,
    block_hash: Seq<u8>,
    method_name: Seq<char>,
    args: Seq<u8>,
    gas: u64,
    deposit: u128,
) -> bool {
    &&& str_prefixable(signer_id)
    &&& str_prefixable(receiver_id)
    &&& str_prefixable(method_name)
    &&& prefixable(args.len())
    &&& forall|tx: Transaction|
        #[trigger] is_single_call(
            tx,
            signer_id,
            public_key,
            nonce,
            receiver_id,
            block_hash,
            method_name,
            args,
            gas,
            deposit,
        ) ==> tx.spec_bytes().len() + 65 <= usize::MAX / 2
}

proof fn lemma_single_call_bytes(
    t1: Transaction,
    t2: Transaction,
    signer_id: Seq<char>,
    public_key: Seq<u8>,
    nonce: u64,
    receiver_id: Seq<char>,
    block_hash: Seq<u8>,
    method_name: Seq<char>,
    args: Seq<u8>,
    gas: u64,
    deposit: u128,
)
    requires
        is_single_call(t1, signer_id, public_key, nonce, receiver_id, block_hash, method_name, args, gas, deposit),
        is_single_call(t2, signer_id, public_key, nonce, receiver_id, block_hash, method_name, args, gas, deposit),
    ensures
        t1.spec_bytes() == t2.spec_bytes(),
        t1.encodable() <==> (str_prefixable(signer_id) && str_prefixable(receiver_id)
            && str_prefixable(method_name) && prefixable(args.len())),
{
    assert(t1.actions@.drop_last() =~= Seq::<Action>::empty());
    assert(t2.actions@.drop_last() =~= Seq::<Action>::empty());
    assert(action_items(t1.actions@) == action_items(t1.actions@.drop_last()) + action_bytes(t1.actions@[0]));
    assert(action_items(t2.actions@) == action_items(t2.actions@.drop_last()) + action_bytes(t2.actions@[0]));
    assert(public_key_bytes(t1.public_key) == public_key_bytes(t2.public_key));
    assert(action_bytes(t1.actions@[0]) == action_bytes(t2.actions@[0]));
    if str_prefixable(method_name) && prefixable(args.len()) {
        assert forall|i: int| 0 <= i < t1.actions@.len() implies action_encodable(#[trigger] t1.actions@[i]) by {
            assert(i == 0);
        }
    }
    if t1.encodable() {
        assert(action_encodable(t1.actions@[0]));
    }
}

/// A signed function-call transaction, ready for the ledger's RPC: built on
/// the access key's current nonce and a recent block hash, signed, and
/// encoded as base64 text.
pub fn signed_function_call(
    keys: &SigningKeys,
    signer_id: &str,
    access_key_nonce: u64,
    receiver_id: &str,
    block_hash: [u8; 32],
    method_name: &str,
    args: &[u8],
    gas: u64,
    deposit: u128,
) -> (r: Result<String, TxError>)
    ensures
        access_key_nonce == u64::MAX ==> r == Err::<String, TxError>(TxError::NonceExhausted),
        access_key_nonce < u64::MAX ==> (r is Ok <==> call_fits(
            signer_id@,
            keys.public_key@,
            (access_key_nonce + 1) as u64,
            receiver_id@,
            block_hash@,
            method_name@,
            args@,
            gas,
            deposit,
        )),
        r matches Err(e) ==> e == TxError::NonceExhausted || e == TxError::TooLarge,
        r matches Ok(text) ==> exists|signed: SignedTransaction|
            #![trigger signed.spec_bytes()]
            {
                &&& is_single_call(
                    signed.transaction,
                    signer_id@,
                    keys.public_key@,
                    (access_key_nonce + 1) as u64,
                    receiver_id@,
                    block_hash@,
                    method_name@,
                    args@,
                    gas,
                    deposit,
                )
                &&& signed.signature matches Signature::ED25519(sig) && sig@ == ed25519_signature_of(
                    keys.seed@,
                    sha256_of(signed.transaction.spec_bytes()),
                )
                &&& text@ == base64_of(signed.spec_bytes())
            },
{
    let tx = function_call_transaction(
        signer_id,
        keys.public_key,
        access_key_nonce,
        receiver_id,
        block_hash,
        method_name,
        args,
        gas,
        deposit,
    )?;
    let ghost t = tx;
    let ghost fields = (
        signer_id@,
        keys.public_key@,
        (access_key_nonce + 1) as u64,
        receiver_id@,
        block_hash@,
        method_name@,
        args@,
    );
    proof {
        lemma_single_call_bytes(t, t, fields.0, fields.1, fields.2, fields.3, fields.4, fields.5, fields.6, gas, deposit);
    }
    let signed = sign_transaction(keys, tx)?;
    let text = signed_transaction_base64(&signed)?;
    proof {
        assert forall|tx2: Transaction|
            #[trigger] is_single_call(tx2, fields.0, fields.1, fields.2, fields.3, fields.4, fields.5, fields.6, gas, deposit)
            implies tx2.spec_bytes().len() + 65 <= usize::MAX / 2 by {
            lemma_single_call_bytes(t, tx2, fields.0, fields.1, fields.2, fields.3, fields.4, fields.5, fields.6, gas, deposit);
        }
    }
    Ok(text)
}

} // verus!
