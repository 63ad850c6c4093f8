//! Off-ledger signed messages: the payload, its canonical bytes, and the
//! signature over the tagged hash of those bytes.
use vstd::prelude::*;
use vstd::utf8::encode_utf8;
use crate::encoding::{enc_option, enc_str, enc_u32, put_raw, put_str, put_u32, put_u8, str_prefixable};
use crate::primitives::{
    base58_decode, base58_decoded, base58_encode, base58_of, base64_decode, base64_decoded,
    base64_encode, base64_of, ed25519_public_key, ed25519_public_of, ed25519_sign,
    ed25519_signature_of, sha256, sha256_of,
};
use crate::text::{decimal, decimal_of, trim_prefix, without_prefix};

verus! {

/// Tag hashed in front of every signed off-ledger message: the reserved high
/// bit plus the scheme's number, 413.
pub const MESSAGE_TAG: u32 = 2147484061;

/// Length of a message nonce, in bytes.
pub const NONCE_LEN: usize = 32;

/// Account that receives published intents.
pub const INTENTS_CONTRACT: &'static str = "intents.near";

/// Marker in front of a key's base58 text.
pub const KEY_PREFIX: &'static str = "ed25519:";

pub open spec fn intents_contract() -> Seq<char> {
    INTENTS_CONTRACT@
}

pub open spec fn key_prefix() -> Seq<char> {
    KEY_PREFIX@
}

/// Why a key, a nonce or a payload could not be used for signing.
#[derive(Debug, Clone, PartialEq, Eq)]
pub enum SignError {
    /// The private key is not valid base58.
    InvalidPrivateKey,
    /// The private key decodes to this many bytes, neither 32 nor 64.
    InvalidKeyLength(usize),
    /// The nonce is not valid base64.
    InvalidNonce,
    /// The nonce decodes to more than 32 bytes.
    NonceTooLong,
    /// A field of the payload is too long to be encoded.
    PayloadTooLarge,
}

impl SignError {
    pub open spec fn spec_message(&self) -> Seq<char> {
        match *self {
            SignError::InvalidPrivateKey => "Failed to decode private key"@,
            SignError::InvalidKeyLength(n) => "Invalid private key length: "@ + decimal_of(n as nat),
            SignError::InvalidNonce => "Failed to decode nonce"@,
            SignError::NonceTooLong => "Nonce too long"@,
            SignError::PayloadTooLarge => "Failed to serialize payload"@,
        }
    }

    /// A readable account of the error.
    pub fn message(&self) -> (r: String)
        ensures
            r@ == self.spec_message(),
    {
        match self {
            SignError::InvalidPrivateKey => String::from_str("Failed to decode private key"),
            SignError::InvalidKeyLength(n) => String::from_str("Invalid private key length: ").concat(
                decimal(*n as u128).as_str(),
            ),
            SignError::InvalidNonce => String::from_str("Failed to decode nonce"),
            SignError::NonceTooLong => String::from_str("Nonce too long"),
            SignError::PayloadTooLarge => String::from_str("Failed to serialize payload"),
        }
    }
}

/// The message that is signed: text, a 32-byte nonce, its recipient and an
/// optional callback address.
pub struct Payload {
    pub message: String,
    pub nonce: [u8; 32],
    pub recipient: String,
    pub callback_url: Option<String>,
}

pub open spec fn opt_view(o: Option<String>) -> Option<Seq<char>> {
    match o {
        Some(s) => Some(s@),
        None => None,
    }
}

/// The canonical bytes of a payload.
pub open spec fn payload_bytes(
    message: Seq<char>,
    nonce: Seq<u8>,
    recipient: Seq<char>,
    callback: Option<Seq<char>>,
) -> Seq<u8> {
    enc_str(message) + nonce + enc_str(recipient) + match callback {
        Some(c) => enc_option(true, enc_str(c)),
        None => enc_option(false, Seq::empty()),
    }
}

/// Whether every text of a payload fits behind a length prefix.
pub open spec fn payload_encodable(
    message: Seq<char>,
    recipient: Seq<char>,
    callback: Option<Seq<char>>,
) -> bool {
    str_prefixable(message) && str_prefixable(recipient) && match callback {
        Some(c) => str_prefixable(c),
        None => true,
    }
}

impl Payload {
    pub open spec fn spec_bytes(&self) -> Seq<u8> {
        payload_bytes(self.message@, self.nonce@, self.recipient@, opt_view(self.callback_url))
    }

    pub open spec fn encodable(&self) -> bool {
        payload_encodable(self.message@, self.recipient@, opt_view(self.callback_url))
    }

    /// The canonical bytes of the payload, or nothing when a text is too long.
    pub fn to_bytes(&self) -> (r: Option<Vec<u8>>)
        ensures
            r is Some <==> self.encodable(),
            r matches Some(b) ==> b@ == self.spec_bytes(),
    {
        let mut out: Vec<u8> = Vec::new();
        if !put_str(&mut out, self.message.as_str()) {
            return None;
        }
        put_raw(&mut out, self.nonce.as_slice());
        if !put_str(&mut out, self.recipient.as_str()) {
            return None;
        }
        match &self.callback_url {
            Some(c) => {
                put_u8(&mut out, 1);
                if !put_str(&mut out, c.as_str()) {
                    return None;
                }
            },
            None => {
                put_u8(&mut out, 0);
            },
        }
        assert(out@ =~= self.spec_bytes());
        Some(out)
    }
}

/// The hash that is signed for a payload: SHA-256 of the tag's four
/// little-endian bytes followed by the payload's bytes.
pub open spec fn message_hash(payload_bytes: Seq<u8>) -> Seq<u8> {
    sha256_of(enc_u32(MESSAGE_TAG as nat) + payload_bytes)
}

/// The 32-byte seed of a base58 private key: the key itself, or the first
/// half of a 64-byte seed-and-public-key pair.
pub open spec fn seed_from_key(key: Seq<char>) -> Result<Seq<u8>, SignError> {
    match base58_decoded(key) {
        None => Err(SignError::InvalidPrivateKey),
        Some(b) => if b.len() == 32 || b.len() == 64 {
            Ok(b.subrange(0, 32))
        } else {
            Err(SignError::InvalidKeyLength(b.len() as usize))
        },
    }
}

/// A nonce right-padded with zero bytes to 32 bytes.
pub open spec fn padded_nonce(b: Seq<u8>) -> Seq<u8> {
    b + Seq::new((32 - b.len()) as nat, |i: int| 0u8)
}

/// What signing `message` for `recipient` with a base64 nonce and a base58
/// private key gives: the base58 signature and the base58 public key.
pub open spec fn signed_message(
    message: Seq<char>,
    nonce: Seq<char>,
    recipient: Seq<char>,
    key: Seq<char>,
) -> Result<(Seq<char>, Seq<char>), SignError> {
    match seed_from_key(key) {
        Err(e) => Err(e),
        Ok(seed) => match base64_decoded(nonce) {
            None => Err(SignError::InvalidNonce),
            Some(nb) => if nb.len() > 32 {
                Err(SignError::NonceTooLong)
            } else if !payload_encodable(message, recipient, None) {
                Err(SignError::PayloadTooLarge)
            } else {
                let bytes = payload_bytes(message, padded_nonce(nb), recipient, None);
                Ok(
                    (
                        base58_of(ed25519_signature_of(seed, message_hash(bytes))),
                        base58_of(ed25519_public_of(seed)),
                    ),
                )
            },
        },
    }
}

/// The seed of a base58 private key that may carry the `ed25519:` marker.
pub open spec fn seed_from_marked_key(key: Seq<char>) -> Result<Seq<u8>, SignError> {
    seed_from_key(without_prefix(key, key_prefix()))
}

/// Copies 32 bytes out of the front of `b`.
fn first_32(b: &[u8]) -> (r: [u8; 32])
    requires
        b@.len() >= 32,
    ensures
        r@ == b@.subrange(0, 32),
{
    let mut r = [0u8; 32];
    let mut i: usize = 0;
    while i < 32
        invariant
            i <= 32,
            b@.len() >= 32,
            forall|j: int| 0 <= j < i ==> r@[j] == b@[j],
        decreases 32 - i,
    {
        r[i] = b[i];
        i = i + 1;
    }
    assert(r@ =~= b@.subrange(0, 32));
    r
}

/// Decodes a base58 private key into its 32-byte seed.
pub fn decode_seed(key: &str) -> (r: Result<[u8; 32], SignError>)
    ensures
        match r {
            Ok(seed) => seed_from_key(key@) == Ok::<Seq<u8>, SignError>(seed@),
            Err(e) => seed_from_key(key@) == Err::<Seq<u8>, SignError>(e),
        },
{
    match base58_decode(key) {
        None => Err(SignError::InvalidPrivateKey),
        Some(bytes) => {
            if bytes.len() != 32 && bytes.len() != 64 {
                Err(SignError::InvalidKeyLength(bytes.len()))
            } else {
                Ok(first_32(bytes.as_slice()))
            }
        },
    }
}

/// Right-pads a nonce with zero bytes to 32 bytes; a longer nonce is refused.
pub fn pad_nonce(b: &[u8]) -> (r: Result<[u8; 32], SignError>)
    ensures
        r is Ok <==> b@.len() <= NONCE_LEN,
        r matches Ok(n) ==> n@ == padded_nonce(b@),
        r matches Err(e) ==> e == SignError::NonceTooLong,
{
    if b.len() > NONCE_LEN {
        return Err(SignError::NonceTooLong);
    }
    let mut r = [0u8; 32];
    let mut i: usize = 0;
    while i < b.len()
        invariant
            i <= b@.len() <= 32,
            forall|j: int| 0 <= j < i ==> r@[j] == b@[j],
            forall|j: int| b@.len() <= j < 32 ==> r@[j] == 0,
        decreases b@.len() - i,
    {
        r[i] = b[i];
        i = i + 1;
    }
    assert(r@ =~= padded_nonce(b@));
    Ok(r)
}

/// Signs `message` for `recipient` under the off-ledger message scheme.
///
/// The private key is base58 text of a 32-byte seed or of a 64-byte
/// seed-and-public-key pair; the nonce is base64 text of at most 32 bytes,
/// right-padded with zeros. Returns the base58 signature and the base58
/// public key.
pub fn sign_nep413_intent(
    message: &str,
    nonce: &str,
    recipient: &str,
    private_key_base58: &str,
) -> (r: Result<(String, String), SignError>)
    ensures
        match r {
            Ok((sig, pk)) => signed_message(message@, nonce@, recipient@, private_key_base58@)
                == Ok::<(Seq<char>, Seq<char>), SignError>((sig@, pk@)),
            Err(e) => signed_message(message@, nonce@, recipient@, private_key_base58@)
                == Err::<(Seq<char>, Seq<char>), SignError>(e),
        },
{
    let seed = decode_seed(private_key_base58)?;
    let public_key = ed25519_public_key(&seed);
    let nonce_bytes = match base64_decode(nonce) {
        Some(b) => b,
        None => return Err(SignError::InvalidNonce),
    };
    let nonce_array = pad_nonce(nonce_bytes.as_slice())?;
    let payload = Payload {
        message: String::from_str(message),
        nonce: nonce_array,
        recipient: String::from_str(recipient),
        callback_url: None,
    };
    let body = match payload.to_bytes() {
        Some(b) => b,
        None => return Err(SignError::PayloadTooLarge),
    };
    let mut preimage: Vec<u8> = Vec::new();
    put_u32(&mut preimage, MESSAGE_TAG);
    put_raw(&mut preimage, body.as_slice());
    let hash = sha256(preimage.as_slice());
    let signature = ed25519_sign(&seed, hash.as_slice());
    Ok((base58_encode(signature.as_slice()), base58_encode(public_key.as_slice())))
}

/// Signs an intent message for the intents contract with a private key that
/// may carry the `ed25519:` marker; returns the base58 signature.
pub fn sign_intent(message: &str, nonce: &str, private_key: &str) -> (r: Result<String, SignError>)
    ensures
        match r {
            Ok(sig) => signed_message(
                message@,
                nonce@,
                intents_contract(),
                without_prefix(private_key@, key_prefix()),
            ) matches Ok(pair) && pair.0 == sig@,
            Err(e) => signed_message(
                message@,
                nonce@,
                intents_contract(),
                without_prefix(private_key@, key_prefix()),
            ) == Err::<(Seq<char>, Seq<char>), SignError>(e),
        },
{
    let key = trim_prefix(private_key, KEY_PREFIX);
    let (signature, _public_key) = sign_nep413_intent(message, nonce, INTENTS_CONTRACT, key)?;
    Ok(signature)
}

/// The public key of a private key that may carry the `ed25519:` marker,
/// as `ed25519:` followed by its base58 text.
pub fn derive_public_key(private_key: &str) -> (r: Result<String, SignError>)
    ensures
        match r {
            Ok(pk) => seed_from_marked_key(private_key@) matches Ok(seed) && pk@ == key_prefix()
                + base58_of(ed25519_public_of(seed)),
            Err(e) => seed_from_marked_key(private_key@) == Err::<Seq<u8>, SignError>(e),
        },
{
    let key = trim_prefix(private_key, KEY_PREFIX);
    let seed = decode_seed(key)?;
    let public_key = ed25519_public_key(&seed);
    let text = base58_encode(public_key.as_slice());
    Ok(String::from_str(KEY_PREFIX).concat(text.as_str()))
}

/// The nonce made from a timestamp in nanoseconds: the base64 text of the
/// SHA-256 digest of the timestamp's decimal text.
pub open spec fn nonce_of(nanos: nat) -> Seq<char> {
    base64_of(sha256_of(encode_utf8(decimal_of(nanos))))
}

/// A fresh message nonce from a timestamp in nanoseconds: the base64 text of
/// the SHA-256 digest of the timestamp's decimal text.
pub fn generate_nonce(nanos: u128) -> (r: String)
    ensures
        r@ == nonce_of(nanos as nat),
{
    let text = decimal(nanos);
    let digest = sha256(text.as_str().as_bytes());
    base64_encode(digest.as_slice())
}

/// Law: signing is a function of the message, nonce, recipient and key
/// alone, so signing the same input twice gives the same signature and
/// public key; a successful signature is the ed25519 signature, under the
/// key's seed, of the tagged hash of the payload's bytes.
pub proof fn law_signing_is_deterministic(
    message: Seq<char>,
    nonce: Seq<char>,
    recipient: Seq<char>,
    key: Seq<char>,
    first: Result<(Seq<char>, Seq<char>), SignError>,
    second: Result<(Seq<char>, Seq<char>), SignError>,
)
    requires
        first == signed_message(message, nonce, recipient, key),
        second == signed_message(message, nonce, recipient, key),
    ensures
        first == second,
        first matches Ok(pair) ==> (seed_from_key(key) matches Ok(seed) && base64_decoded(
            nonce,
        ) matches Some(nb) && pair.0 == base58_of(
            ed25519_signature_of(
                seed,
                message_hash(payload_bytes(message, padded_nonce(nb), recipient, None)),
            ),
        ) && pair.1 == base58_of(ed25519_public_of(seed))),
{
}

/// Law: a nonce of at most 32 bytes keeps its bytes and is followed by zeros
/// up to 32 bytes.
pub proof fn law_nonce_padding(b: Seq<u8>)
    requires
        b.len() <= 32,
    ensures
        padded_nonce(b).len() == 32,
        padded_nonce(b).subrange(0, b.len() as int) == b,
        forall|i: int| b.len() <= i < 32 ==> #[trigger] padded_nonce(b)[i] == 0,
{
    assert(padded_nonce(b).subrange(0, b.len() as int) =~= b);
}

} // verus!
