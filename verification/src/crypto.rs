//! Stateless authenticated encryption of credential payloads.
//!
//! A payload is `base64(nonce || ciphertext+tag)`: a fresh 12-byte random
//! nonce, AES-256-GCM under a 32-byte key, and a portable text encoding.
//! Decryption fails closed: a short payload, a decode failure and a tag
//! mismatch all map to the one [`CryptoError::Invalid`] kind.

use vstd::prelude::*;

use aes_gcm::aead::{Aead, KeyInit};
use aes_gcm::{Aes256Gcm, Key, Nonce};
use base64::Engine;
use rand::TryRngCore;

use crate::errors::CryptoError;

verus! {

/// Length of the symmetric key in bytes.
pub const KEY_LEN: usize = 32;

/// Length of the per-payload nonce in bytes.
pub const NONCE_LEN: usize = 12;

/// Length of the authentication tag appended to the ciphertext.
pub const TAG_LEN: usize = 16;

/// The process-wide 256-bit secret.  Created once per installation and read
/// back on every start; a key of any other length can never decrypt existing
/// payloads and is rejected before it gets here.
pub struct SymmetricKey {
    pub bytes: Vec<u8>,
}

impl View for SymmetricKey {
    type V = Seq<u8>;

    open spec fn view(&self) -> Seq<u8> {
        self.bytes@
    }
}

impl SymmetricKey {
    /// The invariant every constructor establishes: exactly 32 bytes.
    pub open spec fn wf(&self) -> bool {
        self.bytes@.len() == KEY_LEN
    }
}

/// An encrypted credential in its portable text form.
pub struct EncryptedPayload {
    pub text: String,
}

impl View for EncryptedPayload {
    type V = Seq<char>;

    open spec fn view(&self) -> Seq<char> {
        self.text@
    }
}

/// What AES-256-GCM sealing returns for a key, nonce and plaintext: the
/// ciphertext with its 16-byte tag.  A function of the three arguments alone.
pub uninterp spec fn sealed_bytes(key: Seq<u8>, nonce: Seq<u8>, plaintext: Seq<u8>) -> Seq<u8>;

/// What AES-256-GCM opening returns for a key, nonce and ciphertext+tag:
/// the plaintext when the tag verifies, nothing otherwise.
pub uninterp spec fn opened_bytes(key: Seq<u8>, nonce: Seq<u8>, ciphertext: Seq<u8>) -> Option<Seq<u8>>;

/// What the standard base64 encoding of a byte sequence looks like.
pub uninterp spec fn base64_of(bytes: Seq<u8>) -> Seq<char>;

/// The raw bytes of a payload before text encoding: nonce first, then the
/// sealed bytes.
pub open spec fn payload_raw(key: Seq<u8>, nonce: Seq<u8>, plaintext: Seq<u8>) -> Seq<u8> {
    nonce + sealed_bytes(key, nonce, plaintext)
}

/// The text form of a payload for a given key, nonce and plaintext.
pub open spec fn payload_text(key: Seq<u8>, nonce: Seq<u8>, plaintext: Seq<u8>) -> Seq<char> {
    base64_of(payload_raw(key, nonce, plaintext))
}

/// Relies on `rand::rngs::OsRng` through `TryRngCore::try_fill_bytes`: the
/// buffer is filled from the operating system's entropy source.  Nothing
/// beyond the length is promised of the values, and two calls are unrelated.
#[verifier::external_body]
pub(crate) fn os_random_bytes(n: usize) -> (r: Result<Vec<u8>, ()>)
    ensures
        r matches Ok(v) ==> v@.len() == n,
{
    let mut buf = vec![0u8; n];
    match rand::rngs::OsRng.try_fill_bytes(&mut buf) {
        Ok(()) => Ok(buf),
        Err(_) => Err(()),
    }
}

/// Relies on `aes_gcm::Aes256Gcm` through `aead::Aead::encrypt`: AES-256-GCM
/// with a 96-bit nonce and a postfix 128-bit tag.  The result is a function
/// of key, nonce and plaintext alone, is 16 bytes longer than the plaintext,
/// and opening it under the same key and nonce yields the plaintext back.
#[verifier::external_body]
fn aead_seal(key: &[u8], nonce: &[u8], plaintext: &[u8]) -> (r: Result<Vec<u8>, CryptoError>)
    requires
        key@.len() == KEY_LEN,
        nonce@.len() == NONCE_LEN,
    ensures
        r matches Ok(c) ==> c@ == sealed_bytes(key@, nonce@, plaintext@),
        r matches Ok(c) ==> c@.len() == plaintext@.len() + TAG_LEN,
        r matches Ok(c) ==> opened_bytes(key@, nonce@, c@) == Some(plaintext@),
{
    let cipher = Aes256Gcm::new(Key::<Aes256Gcm>::from_slice(key));
    match cipher.encrypt(Nonce::from_slice(nonce), plaintext) {
        Ok(c) => Ok(c),
        Err(_) => Err(CryptoError::Invalid),
    }
}

/// Relies on `aes_gcm::Aes256Gcm` through `aead::Aead::decrypt`: the tag is
/// verified and the plaintext returned exactly when the ciphertext was sealed
/// under the same key and nonce; any other input fails.
#[verifier::external_body]
fn aead_open(key: &[u8], nonce: &[u8], ciphertext: &[u8]) -> (r: Result<Vec<u8>, CryptoError>)
    requires
        key@.len() == KEY_LEN,
        nonce@.len() == NONCE_LEN,
    ensures
        r matches Ok(p) ==> opened_bytes(key@, nonce@, ciphertext@) == Some(p@),
        r is Err ==> opened_bytes(key@, nonce@, ciphertext@) is None,
        r is Err ==> forall|p: Seq<u8>| ciphertext@ != sealed_bytes(key@, nonce@, p),
        r matches Ok(q) ==> forall|p: Seq<u8>|
            ciphertext@ == sealed_bytes(key@, nonce@, p) ==> q@ == p,
{
    let cipher = Aes256Gcm::new(Key::<Aes256Gcm>::from_slice(key));
    match cipher.decrypt(Nonce::from_slice(nonce), ciphertext) {
        Ok(p) => Ok(p),
        Err(_) => Err(CryptoError::Invalid),
    }
}

/// Relies on `base64::prelude::BASE64_STANDARD` through `Engine::encode`:
/// the standard alphabet with canonical padding.
#[verifier::external_body]
pub(crate) fn base64_encode(bytes: &[u8]) -> (r: String)
    ensures
        r@ == base64_of(bytes@),
{
    base64::prelude::BASE64_STANDARD.encode(bytes)
}

/// Relies on `Engine::decode` of the same engine: it accepts exactly the
/// canonical encodings (padding required, trailing bits refused), so a
/// successful decode returns the unique byte sequence encoding to the input,
/// and a failure means no byte sequence encodes to it.
#[verifier::external_body]
pub(crate) fn base64_decode(text: &str) -> (r: Result<Vec<u8>, CryptoError>)
    ensures
        r matches Ok(v) ==> text@ == base64_of(v@),
        r matches Ok(v) ==> forall|b: Seq<u8>| text@ == base64_of(b) ==> b == v@,
        r is Err ==> forall|b: Seq<u8>| text@ != base64_of(b),
{
    match base64::prelude::BASE64_STANDARD.decode(text) {
        Ok(v) => Ok(v),
        Err(_) => Err(CryptoError::Invalid),
    }
}

/// Encrypt a plaintext under a key: draw a fresh random nonce, seal, and
/// encode `nonce || ciphertext+tag` as text.  Nonce freshness rests on the
/// entropy source drawn per call; no nonce counter is kept anywhere.
///
/// The second clause pins the payload's size: it decodes to the 12-byte
/// nonce, the ciphertext as long as the plaintext, and the 16-byte tag.
///
/// An error can only come from the entropy source or the cipher itself,
/// never from the inputs.
pub fn encrypt(plaintext: &[u8], key: &SymmetricKey) -> (r: Result<EncryptedPayload, CryptoError>)
    requires
        key.wf(),
    ensures
        r matches Ok(p) ==> exists|n: Seq<u8>|
            n.len() == NONCE_LEN && p@ == payload_text(key@, n, plaintext@),
        r matches Ok(p) ==> exists|raw: Seq<u8>|
            p@ == base64_of(raw) && raw.len() == NONCE_LEN + plaintext@.len() + TAG_LEN,
        r matches Err(e) ==> e == CryptoError::Invalid,
{
    let nonce = match os_random_bytes(NONCE_LEN) {
        Ok(v) => v,
        Err(_) => {
            return Err(CryptoError::Invalid);
        },
    };
    let mut ciphertext = match aead_seal(key.bytes.as_slice(), nonce.as_slice(), plaintext) {
        Ok(c) => c,
        Err(e) => {
            return Err(e);
        },
    };
    let mut raw = nonce;
    raw.append(&mut ciphertext);
    let ghost n = nonce@;
    assert(raw@ == payload_raw(key@, n, plaintext@));
    assert(raw@.len() == NONCE_LEN + plaintext@.len() + TAG_LEN);
    Ok(EncryptedPayload { text: base64_encode(raw.as_slice()) })
}

/// Decrypt a payload under a key: decode the text, require at least the
/// 12-byte nonce, split it off and open the rest.  Every failure — too short,
/// not base64, wrong key, corrupted, tampered — is the same
/// [`CryptoError::Invalid`]: the reason is deliberately not leaked.
///
/// The second clause says the result is the only reading of the payload:
/// every byte sequence the text encodes (there is exactly one) opens to the
/// returned plaintext.  The last clause is the round-trip law: a payload
/// produced by [`encrypt`] under the same key always decrypts back to its
/// plaintext.
pub fn decrypt(payload: &EncryptedPayload, key: &SymmetricKey) -> (r: Result<Vec<u8>, CryptoError>)
    requires
        key.wf(),
    ensures
        r matches Ok(p) ==> exists|raw: Seq<u8>|
            payload@ == base64_of(raw) && raw.len() >= NONCE_LEN && opened_bytes(
                key@,
                raw.take(NONCE_LEN as int),
                raw.skip(NONCE_LEN as int),
            ) == Some(p@),
        r matches Ok(p) ==> forall|raw: Seq<u8>|
            payload@ == base64_of(raw) ==> raw.len() >= NONCE_LEN && opened_bytes(
                key@,
                raw.take(NONCE_LEN as int),
                raw.skip(NONCE_LEN as int),
            ) == Some(p@),
        r is Err ==> forall|raw: Seq<u8>|
            payload@ == base64_of(raw) ==> raw.len() < NONCE_LEN || opened_bytes(
                key@,
                raw.take(NONCE_LEN as int),
                raw.skip(NONCE_LEN as int),
            ) is None,
        r matches Err(e) ==> e == CryptoError::Invalid,
        forall|n: Seq<u8>, p: Seq<u8>|
            n.len() == NONCE_LEN && payload@ == payload_text(key@, n, p) ==> (r matches Ok(v)
                && v@ == p),
{
    let raw = match base64_decode(payload.text.as_str()) {
        Ok(v) => v,
        Err(e) => {
            return Err(e);
        },
    };
    if raw.len() < NONCE_LEN {
        proof {
            assert forall|n: Seq<u8>, p: Seq<u8>|
                n.len() == NONCE_LEN && payload@ == payload_text(key@, n, p) implies false by {
                let pr = payload_raw(key@, n, p);
                assert(pr == raw@);
                assert(pr.len() >= NONCE_LEN);
            }
        }
        return Err(CryptoError::Invalid);
    }
    let (nonce_part, ct_part) = raw.as_slice().split_at(NONCE_LEN);
    let result = aead_open(key.bytes.as_slice(), nonce_part, ct_part);
    proof {
        assert(nonce_part@ =~= raw@.take(NONCE_LEN as int));
        assert(ct_part@ =~= raw@.skip(NONCE_LEN as int));
        assert forall|n: Seq<u8>, p: Seq<u8>|
            n.len() == NONCE_LEN && payload@ == payload_text(key@, n, p) implies result matches Ok(
            v,
        ) && v@ == p by {
            let pr = payload_raw(key@, n, p);
            assert(pr == raw@);
            assert(pr.take(NONCE_LEN as int) =~= n);
            assert(pr.skip(NONCE_LEN as int) =~= sealed_bytes(key@, n, p));
            assert(ct_part@ == sealed_bytes(key@, n, p));
        }
    }
    match result {
        Ok(p) => Ok(p),
        Err(e) => Err(e),
    }
}

/// Two payloads made with distinct nonces are distinct, whatever the
/// plaintexts: the nonce is the first 12 bytes of the raw payload.  (That the
/// nonces of two calls to [`encrypt`] are themselves distinct rests on the
/// quality of the entropy source; it is exercised by test, not proved.)
pub proof fn lemma_distinct_nonces_distinct_payloads(
    key: Seq<u8>,
    n1: Seq<u8>,
    n2: Seq<u8>,
    p1: Seq<u8>,
    p2: Seq<u8>,
)
    requires
        n1.len() == NONCE_LEN,
        n2.len() == NONCE_LEN,
        n1 != n2,
    ensures
        payload_raw(key, n1, p1) != payload_raw(key, n2, p2),
{
    assert(payload_raw(key, n1, p1).take(NONCE_LEN as int) =~= n1);
    assert(payload_raw(key, n2, p2).take(NONCE_LEN as int) =~= n2);
}

} // verus!
