//! Keys derived from the root key, pairing secrets, pairing codes and
//! their message authentication.
use vstd::prelude::*;

use crate::base36::{
    all_lower36, base36_text, be_bytes, be_value, is_lower36, lemma_base36_text_parse,
    lemma_base36_text_of_digits, lemma_base36_text_valid, lemma_be_bytes_value, lemma_be_value_injective,
    lemma_be_digits_len, lemma_be_value_leading_zeros, lemma_pow36_10_below_pow256_7,
    lemma_pow36_monotone, lemma_radix36_parse_bound, pow36, radix36_parse, zero_chars,
};
use crate::primitives::{
    biguint_base36_text, biguint_parse_base36, ed25519_key_from_spki, ed25519_public_key,
    ed25519_public_key_of_seed, ed25519_sign, ed25519_sign_with_seed, ed25519_spki_of_seed,
    ed25519_verify, ed25519_verify_signature, hkdf_sha256, hkdf_sha256_32, hmac_sha256,
    hmac_sha256_tag, random_bytes, spki_decode, spki_encode, x25519_diffie_hellman,
    x25519_public_key, x25519_public_of_secret, x25519_shared_secret,
};
use crate::text::{
    all_decimal_digits, decimal_digits, int_text, int_to_text, is_decimal_digit,
    lemma_decimal_digits, lemma_parse_decimal_text, lemma_utf8_len, parse_i32, parse_i32_text,
    push_char,
};
use vstd::string::StringSliceAdditionalSpecFns;
use vstd::utf8::encode_utf8;

verus! {

/// Length of a pairing secret in bytes.
pub const PAIRING_SECRET_LEN: usize = 7;

/// Length of a nonce in bytes.
pub const NONCE_LEN: usize = 16;

/// The HKDF salt of the key derivations.
pub open spec fn key_salt() -> Seq<u8> {
    "wispers-connect-v1".spec_bytes()
}

/// The signing seed derived from a root key.
pub open spec fn signing_seed(root_key: Seq<u8>) -> Seq<u8> {
    hkdf_sha256(key_salt(), root_key, "signing-key".spec_bytes())
}

/// The X25519 secret derived from a root key.
pub open spec fn x25519_secret(root_key: Seq<u8>) -> Seq<u8> {
    hkdf_sha256(key_salt(), root_key, "x25519-key".spec_bytes())
}

//-- Signing keys ------------------------------------------------------------

/// Ed25519 signing keypair derived from the root key, held as its seed.
#[derive(Clone)]
pub struct SigningKeyPair {
    seed: [u8; 32],
}

impl View for SigningKeyPair {
    type V = Seq<u8>;

    /// The secret seed.
    closed spec fn view(&self) -> Seq<u8> {
        self.seed@
    }
}

impl SigningKeyPair {
    /// Derive a signing keypair from the root key using HKDF.
    pub fn derive_from_root_key(root_key: &[u8; 32]) -> (r: Self)
        ensures
            r@ == signing_seed(root_key@),
    {
        let seed = hkdf_sha256_32(
            "wispers-connect-v1".as_bytes(),
            root_key.as_slice(),
            "signing-key".as_bytes(),
        );
        SigningKeyPair { seed }
    }

    /// Get the public key in SPKI (X.509 SubjectPublicKeyInfo) DER format.
    pub fn public_key_spki(&self) -> (r: Vec<u8>)
        ensures
            r@ == spki_encode(ed25519_public_key(self@)),
            spki_decode(r@) == Some(ed25519_public_key(self@)),
    {
        ed25519_spki_of_seed(&self.seed)
    }

    /// Get the raw public key bytes.
    pub fn public_key_bytes(&self) -> (r: [u8; 32])
        ensures
            r@ == ed25519_public_key(self@),
    {
        ed25519_public_key_of_seed(&self.seed)
    }

    /// Sign a message.
    pub fn sign(&self, message: &[u8]) -> (r: Vec<u8>)
        ensures
            r@ == ed25519_sign(self@, message@),
            r@.len() == 64,
            ed25519_verify(ed25519_public_key(self@), message@, r@),
    {
        ed25519_sign_with_seed(&self.seed, message)
    }

    /// A copy of this keypair.
    pub fn duplicate(&self) -> (r: Self)
        ensures
            r@ == self@,
    {
        SigningKeyPair { seed: self.seed }
    }
}

//-- X25519 keys -------------------------------------------------------------

/// X25519 key exchange keypair derived from the root key.
#[derive(Clone)]
pub struct X25519KeyPair {
    secret: [u8; 32],
}

impl View for X25519KeyPair {
    type V = Seq<u8>;

    /// The secret.
    closed spec fn view(&self) -> Seq<u8> {
        self.secret@
    }
}

impl X25519KeyPair {
    /// A keypair of the given secret (for instance a fresh ephemeral one).
    pub fn from_secret(secret: [u8; 32]) -> (r: Self)
        ensures
            r@ == secret@,
    {
        X25519KeyPair { secret }
    }

    /// A fresh random keypair, for one connection. Nothing is stated of the
    /// random secret but its length.
    pub fn generate_ephemeral() -> (r: Self)
        ensures
            r@.len() == 32,
    {
        let random = random_bytes(32);
        let mut secret = [0u8; 32];
        let mut i: usize = 0;
        while i < 32
            invariant
                random@.len() == 32,
                secret@.len() == 32,
                i <= 32,
            decreases 32 - i,
        {
            secret[i] = random[i];
            i = i + 1;
        }
        X25519KeyPair { secret }
    }

    /// The secret's bytes.
    pub fn secret_bytes(&self) -> (r: [u8; 32])
        ensures
            r@ == self@,
    {
        self.secret
    }

    /// Derive an X25519 keypair from the root key using HKDF.
    pub fn derive_from_root_key(root_key: &[u8; 32]) -> (r: Self)
        ensures
            r@ == x25519_secret(root_key@),
    {
        let secret = hkdf_sha256_32(
            "wispers-connect-v1".as_bytes(),
            root_key.as_slice(),
            "x25519-key".as_bytes(),
        );
        X25519KeyPair { secret }
    }

    /// Get the public key as raw bytes.
    pub fn public_key(&self) -> (r: [u8; 32])
        ensures
            r@ == x25519_public_key(self@),
    {
        x25519_public_of_secret(&self.secret)
    }

    /// Perform Diffie-Hellman key exchange with a peer's public key.
    /// Returns the shared secret.
    pub fn diffie_hellman(&self, peer_public: &[u8; 32]) -> (r: [u8; 32])
        ensures
            r@ == x25519_shared_secret(self@, peer_public@),
            forall|other: Seq<u8>|
                other.len() == 32 && peer_public@ == #[trigger] x25519_public_key(other) ==> r@
                    == x25519_shared_secret(other, x25519_public_key(self@)),
    {
        x25519_diffie_hellman(&self.secret, peer_public)
    }

    /// A copy of this keypair.
    pub fn duplicate(&self) -> (r: Self)
        ensures
            r@ == self@,
    {
        X25519KeyPair { secret: self.secret }
    }
}

/// Whether `signature` verifies over `message` under the key that `spki`
/// holds.
pub open spec fn spki_signature_valid(spki: Seq<u8>, message: Seq<u8>, signature: Seq<u8>) -> bool {
    match spki_decode(spki) {
        Some(key) => ed25519_verify(key, message, signature),
        None => false,
    }
}

/// Verify a signature using a public key in SPKI DER format.
pub fn verify_signature_spki(spki: &[u8], message: &[u8], signature: &[u8]) -> (r: bool)
    ensures
        r == spki_signature_valid(spki@, message@, signature@),
        r ==> signature@.len() == 64,
{
    let key = match ed25519_key_from_spki(spki) {
        Ok(k) => k,
        Err(_) => {
            return false;
        },
    };
    ed25519_verify_signature(key.as_slice(), message, signature)
}

//-- Base36 ------------------------------------------------------------------

/// Error parsing a pairing secret.
#[derive(Debug, Clone, Copy, PartialEq, Eq, Structural)]
pub enum PairingSecretError {
    InvalidLength,
    InvalidCharacter,
}

/// The message of a pairing secret error.
pub open spec fn pairing_secret_error_text(e: PairingSecretError) -> Seq<char> {
    match e {
        PairingSecretError::InvalidLength => "invalid length: expected 10 characters"@,
        PairingSecretError::InvalidCharacter => "invalid base36 character"@,
    }
}

impl PairingSecretError {
    /// The error's message.
    pub fn message(&self) -> (r: String)
        ensures
            r@ == pairing_secret_error_text(*self),
    {
        match self {
            PairingSecretError::InvalidLength => String::from_str(
                "invalid length: expected 10 characters",
            ),
            PairingSecretError::InvalidCharacter => String::from_str("invalid base36 character"),
        }
    }
}

/// What decoding ten base-36 characters gives: their value, or the error.
pub open spec fn decode_base36_value(cs: Seq<char>) -> Result<nat, PairingSecretError> {
    if encode_utf8(cs).len() != 10 {
        Err(PairingSecretError::InvalidLength)
    } else {
        match radix36_parse(cs) {
            None => Err(PairingSecretError::InvalidCharacter),
            Some(n) => Ok(n),
        }
    }
}

/// Encode bytes as 10 lowercase base36 characters.
fn encode_base36(bytes: &[u8]) -> (s: String)
    ensures
        s@ == base36_text(be_value(bytes@)),
{
    let digits = biguint_base36_text(bytes);
    let len = digits.unicode_len();
    if len < 10 {
        let mut s = String::new();
        let mut i: usize = 0;
        while i < 10 - len
            invariant
                i <= 10 - len,
                s@ == zero_chars(i as nat),
            decreases 10 - len - i,
        {
            push_char(&mut s, '0');
            i = i + 1;
            assert(s@ =~= zero_chars(i as nat));
        }
        s.append(digits.as_str());
        s
    } else if len > 10 {
        String::from_str(digits.as_str().substring_char(len - 10, len))
    } else {
        assert(digits@.subrange(0, 10) =~= digits@);
        digits
    }
}

/// Decode 10 base36 characters to bytes.
fn decode_base36(s: &str) -> (r: Result<[u8; 7], PairingSecretError>)
    ensures
        match decode_base36_value(s@) {
            Ok(n) => r matches Ok(b) && be_value(b@) == n,
            Err(e) => r == Err::<[u8; 7], PairingSecretError>(e),
        },
{
    if s.as_bytes().len() != 10 {
        return Err(PairingSecretError::InvalidLength);
    }
    let bytes = match biguint_parse_base36(s) {
        Some(b) => b,
        None => {
            return Err(PairingSecretError::InvalidCharacter);
        },
    };
    let ghost n = radix36_parse(s@)->0;
    proof {
        lemma_utf8_len(s@);
        lemma_radix36_parse_bound(s@);
        lemma_pow36_monotone(s@.len(), 10);
        lemma_pow36_10_below_pow256_7();
        if n > 0 {
            lemma_be_digits_len(n, 7);
        }
        lemma_be_bytes_value(n);
    }
    let mut result = [0u8; 7];
    let offset: usize = 7 - bytes.len();
    let mut i: usize = 0;
    while i < bytes.len()
        invariant
            bytes@ == be_bytes(n),
            bytes@.len() <= 7,
            offset == 7 - bytes@.len(),
            i <= bytes@.len(),
            result@.len() == 7,
            forall|j: int| 0 <= j < offset ==> result@[j] == 0,
            forall|j: int| 0 <= j < i ==> result@[offset + j] == bytes@[j],
        decreases bytes@.len() - i,
    {
        result[offset + i] = bytes[i];
        i = i + 1;
    }
    proof {
        let z = result@.take(offset as int);
        assert(result@ =~= z + bytes@);
        lemma_be_value_leading_zeros(z, bytes@);
    }
    Ok(result)
}

//-- Pairing secrets ---------------------------------------------------------

/// The key of the pairing MAC: HMAC of the salt and info labels under the
/// secret.
pub open spec fn pairing_mac_key(secret: Seq<u8>) -> Seq<u8> {
    hmac_sha256(secret, "wispers-pairing-v1".spec_bytes() + "wispers-pairing-v1|mac".spec_bytes())
}

/// The pairing MAC of a payload: HMAC-SHA256 under the MAC key, cut to 16
/// bytes.
pub open spec fn pairing_mac(secret: Seq<u8>, payload: Seq<u8>) -> Seq<u8> {
    hmac_sha256(pairing_mac_key(secret), payload).take(16)
}

/// Whether `tag` is the pairing MAC of `payload` under `secret`.
pub open spec fn pairing_mac_valid(secret: Seq<u8>, payload: Seq<u8>, tag: Seq<u8>) -> bool {
    tag == pairing_mac(secret, payload)
}

/// A pairing secret for device-to-device activation (copied with
/// `duplicate`).
pub struct PairingSecret {
    bytes: [u8; 7],
}

impl View for PairingSecret {
    type V = Seq<u8>;

    /// The seven secret bytes.
    closed spec fn view(&self) -> Seq<u8> {
        self.bytes@
    }
}

impl PairingSecret {
    /// Every pairing secret is the one its ten-character text stands for:
    /// its value is below 36^10.
    #[verifier::type_invariant]
    closed spec fn ten_base36_digits(self) -> bool {
        be_value(self.bytes@) < pow36(10)
    }

    /// The secret is seven bytes long.
    pub proof fn lemma_len(&self)
        ensures
            self@.len() == 7,
    {
    }

    /// Generate a new random pairing secret.
    ///
    /// The random bytes go through base36 and back, so that the secret is
    /// the one its ten-character text stands for: its value is below 36^10.
    pub fn generate() -> (r: Self)
        ensures
            r@.len() == 7,
            be_value(r@) < pow36(10),
    {
        let raw = random_bytes(PAIRING_SECRET_LEN);
        let text = encode_base36(raw.as_slice());
        proof {
            lemma_base36_text_valid(be_value(raw@));
            lemma_radix36_parse_bound(text@);
        }
        match decode_base36(text.as_str()) {
            Ok(bytes) => PairingSecret { bytes },
            Err(_) => {
                assert(false);
                PairingSecret { bytes: [0u8; 7] }
            },
        }
    }

    /// Parse a pairing secret from base36 encoding.
    pub fn from_base36(s: &str) -> (r: Result<Self, PairingSecretError>)
        ensures
            match decode_base36_value(s@) {
                Ok(n) => r matches Ok(p) && p@.len() == 7 && be_value(p@) == n && n < pow36(10),
                Err(e) => r matches Err(x) && x == e,
            },
    {
        let bytes = decode_base36(s)?;
        proof {
            lemma_utf8_len(s@);
            lemma_radix36_parse_bound(s@);
            lemma_pow36_monotone(s@.len(), 10);
        }
        Ok(PairingSecret { bytes })
    }

    /// Get the base36 encoding (10 lowercase characters).
    pub fn to_base36(&self) -> (s: String)
        ensures
            s@ == base36_text(be_value(self@)),
            be_value(self@) < pow36(10),
    {
        proof {
            use_type_invariant(self);
        }
        encode_base36(self.bytes.as_slice())
    }

    /// Get the raw bytes.
    pub fn as_bytes(&self) -> (r: &[u8])
        ensures
            r@ == self@,
            r@.len() == 7,
            be_value(r@) < pow36(10),
    {
        proof {
            use_type_invariant(self);
        }
        self.bytes.as_slice()
    }

    /// Derive the MAC key for pairing message authentication:
    /// HMAC(secret, salt || info).
    fn derive_mac_key(&self) -> (r: Vec<u8>)
        ensures
            r@ == pairing_mac_key(self@),
    {
        let salt = "wispers-pairing-v1".as_bytes();
        let info = "wispers-pairing-v1|mac".as_bytes();
        let mut labels: Vec<u8> = Vec::new();
        labels.extend_from_slice(salt);
        labels.extend_from_slice(info);
        assert(labels@ =~= salt@ + info@);
        hmac_sha256_tag(self.bytes.as_slice(), labels.as_slice())
    }

    /// Compute HMAC for a pairing message payload (truncated to 16 bytes).
    pub fn compute_mac(&self, payload: &[u8]) -> (r: Vec<u8>)
        ensures
            r@ == pairing_mac(self@, payload@),
            r@.len() == 16,
    {
        let key = self.derive_mac_key();
        let mut tag = hmac_sha256_tag(key.as_slice(), payload);
        tag.truncate(16);
        tag
    }

    /// Verify HMAC for a pairing message payload.
    pub fn verify_mac(&self, payload: &[u8], tag: &[u8]) -> (r: bool)
        ensures
            r == pairing_mac_valid(self@, payload@, tag@),
    {
        let expected = self.compute_mac(payload);
        constant_time_eq(expected.as_slice(), tag)
    }

    /// A copy of this secret.
    pub fn duplicate(&self) -> (r: Self)
        ensures
            r@ == self@,
    {
        proof {
            use_type_invariant(self);
        }
        PairingSecret { bytes: self.bytes }
    }
}

//-- Pairing codes -----------------------------------------------------------

/// Error parsing a pairing code.
#[derive(Debug, Clone, Copy, PartialEq, Eq, Structural)]
pub enum PairingCodeError {
    InvalidFormat,
    InvalidNodeNumber,
    InvalidSecret(PairingSecretError),
}

/// The message of a pairing code error.
pub open spec fn pairing_code_error_text(e: PairingCodeError) -> Seq<char> {
    match e {
        PairingCodeError::InvalidFormat => "invalid format: expected 'node_number-secret'"@,
        PairingCodeError::InvalidNodeNumber => "invalid node number"@,
        PairingCodeError::InvalidSecret(inner) => "invalid secret: "@ + pairing_secret_error_text(
            inner,
        ),
    }
}

impl PairingCodeError {
    /// The error's message.
    pub fn message(&self) -> (r: String)
        ensures
            r@ == pairing_code_error_text(*self),
    {
        match self {
            PairingCodeError::InvalidFormat => String::from_str(
                "invalid format: expected 'node_number-secret'",
            ),
            PairingCodeError::InvalidNodeNumber => String::from_str("invalid node number"),
            PairingCodeError::InvalidSecret(e) => {
                let mut m = String::from_str("invalid secret: ");
                let inner = e.message();
                m.append(inner.as_str());
                m
            },
        }
    }
}

/// How often `c` occurs in `cs`.
pub open spec fn count_char(cs: Seq<char>, c: char) -> nat
    decreases cs.len(),
{
    if cs.len() == 0 {
        0
    } else {
        count_char(cs.drop_last(), c) + if cs.last() == c {
            1nat
        } else {
            0nat
        }
    }
}

/// What parsing a pairing code text gives: its node number and the value of
/// its secret, or the error. The text must hold exactly one `-`.
pub open spec fn pairing_code_fields(cs: Seq<char>) -> Result<(i32, nat), PairingCodeError> {
    if count_char(cs, '-') != 1 {
        Err(PairingCodeError::InvalidFormat)
    } else {
        let k = choose|k: int| 0 <= k < cs.len() && cs[k] == '-';
        match parse_i32_text(cs.take(k)) {
            None => Err(PairingCodeError::InvalidNodeNumber),
            Some(n) => match decode_base36_value(cs.skip(k + 1)) {
                Err(e) => Err(PairingCodeError::InvalidSecret(e)),
                Ok(v) => Ok((n, v)),
            },
        }
    }
}

/// The text of a pairing code: node number, `-`, the secret's ten characters.
pub open spec fn pairing_code_text(node_number: i32, secret: Seq<u8>) -> Seq<char> {
    int_text(node_number as int) + seq!['-'] + base36_text(be_value(secret))
}

/// A character that does not occur has count zero, and the other way round.
pub proof fn lemma_count_char_zero(cs: Seq<char>, c: char)
    ensures
        (count_char(cs, c) == 0) == (forall|i: int| 0 <= i < cs.len() ==> cs[i] != c),
    decreases cs.len(),
{
    if cs.len() > 0 {
        let p = cs.drop_last();
        lemma_count_char_zero(p, c);
        if count_char(cs, c) == 0 {
            assert forall|i: int| 0 <= i < cs.len() implies cs[i] != c by {
                if i < p.len() {
                    assert(cs[i] == p[i]);
                }
            }
        }
        if forall|i: int| 0 <= i < cs.len() ==> cs[i] != c {
            assert(cs[cs.len() - 1] != c);
            assert forall|i: int| 0 <= i < p.len() implies p[i] != c by {
                assert(cs[i] == p[i]);
            }
        }
    }
}

/// A character that occurs once occurs at one index only.
pub proof fn lemma_count_char_one(cs: Seq<char>, c: char, a: int, b: int)
    requires
        count_char(cs, c) == 1,
        0 <= a < cs.len(),
        0 <= b < cs.len(),
        cs[a] == c,
        cs[b] == c,
    ensures
        a == b,
    decreases cs.len(),
{
    let p = cs.drop_last();
    if a < p.len() && b < p.len() {
        assert(cs[a] == p[a] && cs[b] == p[b]);
        if cs.last() == c {
            lemma_count_char_zero(p, c);
        } else {
            lemma_count_char_one(p, c, a, b);
        }
    } else if a < p.len() || b < p.len() {
        lemma_count_char_zero(p, c);
        if a < p.len() {
            assert(cs[a] == p[a]);
        } else {
            assert(cs[b] == p[b]);
        }
    }
}

/// A pairing code combining node number and secret for display/entry.
pub struct PairingCode {
    pub node_number: i32,
    pub secret: PairingSecret,
}

impl PairingCode {
    /// Create a new pairing code.
    pub fn new(node_number: i32, secret: PairingSecret) -> (r: Self)
        ensures
            r.node_number == node_number,
            r.secret@ == secret@,
    {
        PairingCode { node_number, secret }
    }

    /// Format as "node_number-base36secret" for display.
    pub fn format(&self) -> (s: String)
        ensures
            s@ == pairing_code_text(self.node_number, self.secret@),
    {
        let mut s = int_to_text(self.node_number as i64);
        push_char(&mut s, '-');
        let secret = self.secret.to_base36();
        s.append(secret.as_str());
        s
    }

    /// Parse from "node_number-base36secret" format.
    pub fn parse(s: &str) -> (r: Result<Self, PairingCodeError>)
        ensures
            match pairing_code_fields(s@) {
                Ok((n, v)) => r matches Ok(code) && code.node_number == n && code.secret@.len()
                    == 7 && be_value(code.secret@) == v,
                Err(e) => r matches Err(x) && x == e,
            },
    {
        let ghost cs = s@;
        let len = s.unicode_len();
        let mut dashes: usize = 0;
        let mut first: usize = 0;
        let mut i: usize = 0;
        assert(cs.take(0) =~= Seq::<char>::empty());
        while i < len
            invariant
                cs == s@,
                len == cs.len(),
                i <= len,
                dashes == count_char(cs.take(i as int), '-'),
                dashes <= i,
                dashes > 0 ==> first < i && cs[first as int] == '-',
            decreases len - i,
        {
            let c = s.get_char(i);
            proof {
                assert(cs.take(i + 1).drop_last() =~= cs.take(i as int));
                assert(cs.take(i + 1).last() == c);
            }
            if c == '-' {
                if dashes == 0 {
                    first = i;
                }
                dashes = dashes + 1;
            }
            i = i + 1;
        }
        assert(cs.take(len as int) =~= cs);
        if dashes != 1 {
            return Err(PairingCodeError::InvalidFormat);
        }
        proof {
            let k = choose|k: int| 0 <= k < cs.len() && cs[k] == '-';
            lemma_count_char_one(cs, '-', k, first as int);
        }
        let head = s.substring_char(0, first);
        let tail = s.substring_char(first + 1, len);
        assert(head@ =~= cs.take(first as int));
        assert(tail@ =~= cs.skip(first + 1));
        let node_number = match parse_i32(head) {
            Some(n) => n,
            None => {
                return Err(PairingCodeError::InvalidNodeNumber);
            },
        };
        let secret = match PairingSecret::from_base36(tail) {
            Ok(p) => p,
            Err(e) => {
                return Err(PairingCodeError::InvalidSecret(e));
            },
        };
        Ok(PairingCode { node_number, secret })
    }
}

//-- Laws --------------------------------------------------------------------

/// A MAC computed with a secret verifies with that secret.
pub proof fn law_mac_verifies(secret: Seq<u8>, payload: Seq<u8>)
    ensures
        pairing_mac_valid(secret, payload, pairing_mac(secret, payload)),
{
}

/// A secret's ten-character text decodes back to the secret, for every
/// secret below 36^10 (which every generated secret is).
pub proof fn law_base36_roundtrip(secret: Seq<u8>, decoded: Seq<u8>)
    requires
        secret.len() == 7,
        be_value(secret) < pow36(10),
        decoded.len() == 7,
    ensures
        decode_base36_value(base36_text(be_value(secret))) == Ok::<nat, PairingSecretError>(
            be_value(secret),
        ),
        be_value(decoded) == be_value(secret) ==> decoded == secret,
{
    lemma_base36_text_valid(be_value(secret));
    lemma_base36_text_parse(be_value(secret));
    if be_value(decoded) == be_value(secret) {
        lemma_be_value_injective(decoded, secret);
    }
}

/// Occurrences in a concatenation add up.
pub proof fn lemma_count_char_concat(a: Seq<char>, b: Seq<char>, c: char)
    ensures
        count_char(a + b, c) == count_char(a, c) + count_char(b, c),
    decreases b.len(),
{
    if b.len() == 0 {
        assert(a + b =~= a);
    } else {
        lemma_count_char_concat(a, b.drop_last(), c);
        assert((a + b).drop_last() =~= a + b.drop_last());
        assert((a + b).last() == b.last());
    }
}

/// Ten lowercase base-36 characters decode to a secret value below 36^10
/// whose ten-character text is those characters again: text, then secret,
/// then text gives back the text.
pub proof fn law_text_roundtrip(text: Seq<char>)
    requires
        text.len() == 10,
        all_lower36(text),
    ensures
        decode_base36_value(text) matches Ok(n) && n < pow36(10) && base36_text(n) == text,
{
    lemma_base36_text_of_digits(text);
    assert(vstd::utf8::is_ascii_chars(text)) by {
        assert forall|i: int| 0 <= i < text.len() implies '\0' <= #[trigger] text[i] <= '\u{7f}' by {
            assert(is_lower36(text[i]));
        }
    }
    vstd::utf8::is_ascii_chars_encode_utf8(text);
    assert(is_lower36(text[0]));
}

/// A formatted pairing code parses back to its node number and secret, for
/// every node number that is not negative and every secret below 36^10.
pub proof fn law_pairing_code_roundtrip(node_number: i32, secret: Seq<u8>, parsed: Seq<u8>)
    requires
        node_number >= 0,
        secret.len() == 7,
        be_value(secret) < pow36(10),
        parsed.len() == 7,
    ensures
        pairing_code_fields(pairing_code_text(node_number, secret)) == Ok::<
            (i32, nat),
            PairingCodeError,
        >((node_number, be_value(secret))),
        be_value(parsed) == be_value(secret) ==> parsed == secret,
{
    let a = int_text(node_number as int);
    let b = base36_text(be_value(secret));
    let t = pairing_code_text(node_number, secret);
    lemma_decimal_digits(node_number as nat);
    lemma_parse_decimal_text(node_number);
    law_base36_roundtrip(secret, parsed);
    lemma_base36_text_valid(be_value(secret));
    assert(t == a + seq!['-'] + b);
    assert(count_char(a, '-') == 0) by {
        assert forall|i: int| 0 <= i < a.len() implies a[i] != '-' by {
            assert(is_decimal_digit(a[i]));
        }
        lemma_count_char_zero(a, '-');
    }
    assert(count_char(b, '-') == 0) by {
        assert forall|i: int| 0 <= i < b.len() implies b[i] != '-' by {
            assert(is_lower36(b[i]));
        }
        lemma_count_char_zero(b, '-');
    }
    assert(count_char(seq!['-'], '-') == 1) by {
        assert(seq!['-'].drop_last() =~= Seq::<char>::empty());
        assert(count_char(Seq::<char>::empty(), '-') == 0);
    }
    lemma_count_char_concat(a, seq!['-'], '-');
    lemma_count_char_concat(a + seq!['-'], b, '-');
    let k = a.len() as int;
    assert(t[k] == '-');
    let j = choose|j: int| 0 <= j < t.len() && t[j] == '-';
    lemma_count_char_one(t, '-', j, k);
    assert(t.take(k) =~= a);
    assert(t.skip(k + 1) =~= b);
}

//-- Nonces ------------------------------------------------------------------

/// Generate a random nonce for pairing.
pub fn generate_nonce() -> (r: Vec<u8>)
    ensures
        r@.len() == NONCE_LEN,
{
    random_bytes(NONCE_LEN)
}

//-- Constant-time comparison ------------------------------------------------

/// Constant-time equality comparison.
fn constant_time_eq(a: &[u8], b: &[u8]) -> (r: bool)
    ensures
        r == (a@ == b@),
{
    if a.len() != b.len() {
        return false;
    }
    let mut diff: u8 = 0;
    let mut i: usize = 0;
    while i < a.len()
        invariant
            a@.len() == b@.len(),
            i <= a@.len(),
            (diff == 0) == (forall|j: int| 0 <= j < i ==> a@[j] == b@[j]),
        decreases a@.len() - i,
    {
        let x = a[i];
        let y = b[i];
        let d = diff | (x ^ y);
        assert((d == 0) == (diff == 0 && x == y)) by (bit_vector)
            requires
                d == diff | (x ^ y),
        ;
        diff = d;
        i = i + 1;
    }
    proof {
        if diff == 0 {
            assert(a@ =~= b@);
        }
    }
    diff == 0
}

} // verus!
