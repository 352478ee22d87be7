//! Cryptographic primitives of outside crates, behind trusted items.
//!
//! Each wrapper below makes one call into an outside crate (converting its
//! arguments and result only). Where a result takes pages to state, it is
//! given a name; the names are deterministic functions of their arguments.
//! What each contract claims of the outside code is written above it: none
//! of it is proved here.
use vstd::prelude::*;

use ed25519_dalek::pkcs8::{DecodePublicKey, EncodePublicKey};
use ed25519_dalek::{Signer, Verifier};
use hmac::Mac;
use rand::RngCore;
use sha2::Digest;

use crate::base36::{be_bytes, be_value, radix36_parse, radix36_text};

verus! {

/// SHA-256 of `data` (sha2::Sha256).
pub uninterp spec fn sha256(data: Seq<u8>) -> Seq<u8>;

/// HMAC-SHA256 of `msg` under `key` (hmac::Hmac<Sha256>).
pub uninterp spec fn hmac_sha256(key: Seq<u8>, msg: Seq<u8>) -> Seq<u8>;

/// The first 32 bytes of HKDF-SHA256 output (hkdf::Hkdf<Sha256>).
pub uninterp spec fn hkdf_sha256(salt: Seq<u8>, ikm: Seq<u8>, info: Seq<u8>) -> Seq<u8>;

/// The Ed25519 public key (compressed point) of a 32-byte secret seed.
pub uninterp spec fn ed25519_public_key(seed: Seq<u8>) -> Seq<u8>;

/// The Ed25519 signature of `msg` by the key with secret seed `seed`.
pub uninterp spec fn ed25519_sign(seed: Seq<u8>, msg: Seq<u8>) -> Seq<u8>;

/// Whether `sig` is a valid Ed25519 signature of `msg` under public key `key`.
pub uninterp spec fn ed25519_verify(key: Seq<u8>, msg: Seq<u8>, sig: Seq<u8>) -> bool;

/// The SubjectPublicKeyInfo DER encoding of an Ed25519 public key.
pub uninterp spec fn spki_encode(key: Seq<u8>) -> Seq<u8>;

/// The Ed25519 public key that a SubjectPublicKeyInfo DER document holds,
/// if it holds a valid one.
pub uninterp spec fn spki_decode(spki: Seq<u8>) -> Option<Seq<u8>>;

/// The X25519 public key of a 32-byte secret.
pub uninterp spec fn x25519_public_key(secret: Seq<u8>) -> Seq<u8>;

/// The X25519 shared secret of our secret and a peer's public key.
pub uninterp spec fn x25519_shared_secret(secret: Seq<u8>, peer: Seq<u8>) -> Seq<u8>;

/// `sha2::Sha256::digest`: the 32-byte SHA-256 digest of `data`.
#[verifier::external_body]
pub fn sha256_digest(data: &[u8]) -> (res: Vec<u8>)
    ensures
        res@ == sha256(data@),
        res@.len() == 32,
{
    sha2::Sha256::digest(data).to_vec()
}

/// `hmac::Hmac<Sha256>`: `new_from_slice(key)` (which accepts every key
/// length), `update(msg)`, `finalize()`. The tag is 32 bytes.
#[verifier::external_body]
pub fn hmac_sha256_tag(key: &[u8], msg: &[u8]) -> (res: Vec<u8>)
    ensures
        res@ == hmac_sha256(key@, msg@),
        res@.len() == 32,
{
    let mut mac = <hmac::Hmac<sha2::Sha256> as Mac>::new_from_slice(key).unwrap();
    mac.update(msg);
    mac.finalize().into_bytes().to_vec()
}

/// `hkdf::Hkdf::<Sha256>::new(Some(salt), ikm)` then `expand(info)` into 32
/// bytes, a length that HKDF-SHA256 always accepts.
#[verifier::external_body]
pub fn hkdf_sha256_32(salt: &[u8], ikm: &[u8], info: &[u8]) -> (res: [u8; 32])
    ensures
        res@ == hkdf_sha256(salt@, ikm@, info@),
{
    let hk = hkdf::Hkdf::<sha2::Sha256>::new(Some(salt), ikm);
    let mut okm = [0u8; 32];
    hk.expand(info, &mut okm).unwrap();
    okm
}

/// `ed25519_dalek::SigningKey::from_bytes(seed).verifying_key().to_bytes()`.
#[verifier::external_body]
pub fn ed25519_public_key_of_seed(seed: &[u8; 32]) -> (res: [u8; 32])
    ensures
        res@ == ed25519_public_key(seed@),
{
    ed25519_dalek::SigningKey::from_bytes(seed).verifying_key().to_bytes()
}

/// `ed25519_dalek::VerifyingKey::to_public_key_der` of the key of `seed`.
/// The DER document decodes back (`from_public_key_der`) to the same key.
#[verifier::external_body]
pub fn ed25519_spki_of_seed(seed: &[u8; 32]) -> (res: Vec<u8>)
    ensures
        res@ == spki_encode(ed25519_public_key(seed@)),
        spki_decode(res@) == Some(ed25519_public_key(seed@)),
{
    let key = ed25519_dalek::SigningKey::from_bytes(seed).verifying_key();
    key.to_public_key_der().unwrap().to_vec()
}

/// `ed25519_dalek::SigningKey::sign`: a 64-byte signature, which
/// `VerifyingKey::verify` accepts under the key's own public key.
#[verifier::external_body]
pub fn ed25519_sign_with_seed(seed: &[u8; 32], msg: &[u8]) -> (res: Vec<u8>)
    ensures
        res@ == ed25519_sign(seed@, msg@),
        res@.len() == 64,
        ed25519_verify(ed25519_public_key(seed@), msg@, res@),
{
    ed25519_dalek::SigningKey::from_bytes(seed).sign(msg).to_bytes().to_vec()
}

/// `ed25519_dalek::VerifyingKey::verify` of `sig` over `msg`. The key is
/// rebuilt with `VerifyingKey::from_bytes` and the signature with
/// `Signature::from_slice`; a key that does not decompress or a signature
/// of another length than 64 bytes is refused.
#[verifier::external_body]
pub fn ed25519_verify_signature(key: &[u8], msg: &[u8], sig: &[u8]) -> (res: bool)
    ensures
        res == ed25519_verify(key@, msg@, sig@),
        res ==> sig@.len() == 64,
{
    let Ok(key) = <[u8; 32]>::try_from(key) else { return false };
    let Ok(key) = ed25519_dalek::VerifyingKey::from_bytes(&key) else { return false };
    let Ok(sig) = ed25519_dalek::Signature::from_slice(sig) else { return false };
    key.verify(msg, &sig).is_ok()
}

/// `ed25519_dalek::VerifyingKey::from_public_key_der`, giving the 32-byte
/// public key. On failure the error's text is returned; nothing is stated
/// of that text.
#[verifier::external_body]
pub fn ed25519_key_from_spki(spki: &[u8]) -> (res: Result<Vec<u8>, String>)
    ensures
        res is Ok <==> spki_decode(spki@) is Some,
        res matches Ok(k) ==> spki_decode(spki@) == Some(k@) && k@.len() == 32,
{
    match ed25519_dalek::VerifyingKey::from_public_key_der(spki) {
        Ok(key) => Ok(key.to_bytes().to_vec()),
        Err(e) => Err(e.to_string()),
    }
}

/// `x25519_dalek::PublicKey::from(&StaticSecret::from(secret)).to_bytes()`.
#[verifier::external_body]
pub fn x25519_public_of_secret(secret: &[u8; 32]) -> (res: [u8; 32])
    ensures
        res@ == x25519_public_key(secret@),
{
    let secret = x25519_dalek::StaticSecret::from(*secret);
    x25519_dalek::PublicKey::from(&secret).to_bytes()
}

/// `x25519_dalek::StaticSecret::diffie_hellman` with the peer's public key.
/// As the crate documents, two parties agree: when the peer's key is the
/// public key of a secret, the peer computes the same shared secret from
/// that secret and our public key.
#[verifier::external_body]
pub fn x25519_diffie_hellman(secret: &[u8; 32], peer: &[u8; 32]) -> (res: [u8; 32])
    ensures
        res@ == x25519_shared_secret(secret@, peer@),
        forall|other: Seq<u8>|
            other.len() == 32 && peer@ == #[trigger] x25519_public_key(other) ==> res@
                == x25519_shared_secret(other, x25519_public_key(secret@)),
{
    let secret = x25519_dalek::StaticSecret::from(*secret);
    secret.diffie_hellman(&x25519_dalek::PublicKey::from(*peer)).to_bytes()
}

/// `num_bigint::BigUint::from_bytes_be(bytes).to_str_radix(36)`: the
/// base-36 numeral of the big-endian value of `bytes`, in lowercase digits
/// without leading zeros ("0" for zero).
#[verifier::external_body]
pub fn biguint_base36_text(bytes: &[u8]) -> (res: String)
    ensures
        res@ == radix36_text(be_value(bytes@)),
{
    num_bigint::BigUint::from_bytes_be(bytes).to_str_radix(36)
}

/// `num_bigint::BigUint::parse_bytes(s.as_bytes(), 36)` and, on success,
/// `to_bytes_be()`: the numeral's value as minimal big-endian bytes ([0] for
/// zero). Parsing follows `from_str_radix`: one leading `+` is dropped
/// unless another follows, the rest must be non-empty and not start with
/// `_`, `_` is skipped, and each other character must be a digit `0-9`,
/// `a-z` or `A-Z` below 36 (characters outside ASCII are invalid).
#[verifier::external_body]
pub fn biguint_parse_base36(s: &str) -> (res: Option<Vec<u8>>)
    ensures
        match radix36_parse(s@) {
            Some(n) => res matches Some(b) && b@ == be_bytes(n),
            None => res is None,
        },
{
    match num_bigint::BigUint::parse_bytes(s.as_bytes(), 36) {
        Some(n) => Some(n.to_bytes_be()),
        None => None,
    }
}

/// `rand::thread_rng().fill_bytes`: `len` random bytes. Nothing is stated
/// of their values.
#[verifier::external_body]
pub fn random_bytes(len: usize) -> (res: Vec<u8>)
    ensures
        res@.len() == len,
{
    let mut bytes = vec![0u8; len];
    rand::thread_rng().fill_bytes(&mut bytes);
    bytes
}

} // verus!
