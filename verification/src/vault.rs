//! The credential vault: binds the cipher and the key to the endpoint record
//! lifecycle.  A password is encrypted at write time and decrypted at read
//! time; a missing or garbled payload never fails the caller.
//!
//! Internally a read distinguishes "no password configured" from "present but
//! undecryptable" so the caller can log the difference, but both collapse to
//! the same externally observable "no credential" value: callers cannot tell
//! them apart from the return alone, and both mean "proceed without
//! credentials".

use vstd::prelude::*;
use vstd::utf8::{
    decode_utf8, decode_utf8_encode_utf8, encode_utf8, encode_utf8_decode_utf8,
    encode_utf8_valid_utf8, valid_utf8,
};

use crate::crypto::{
    base64_of, decrypt, encrypt, opened_bytes, payload_text, EncryptedPayload, SymmetricKey,
    NONCE_LEN,
};
use crate::errors::CryptoError;

verus! {

/// A persisted endpoint: identity, TLS policy, optional username, and the
/// optional encrypted password payload.  Timestamps are carried as plain
/// rendered text; the vault treats every field but the payload as opaque
/// pass-through.
pub struct Endpoint {
    pub id: i64,
    pub name: String,
    pub url: String,
    pub insecure: bool,
    pub username: Option<String>,
    pub password_encrypted: Option<String>,
    pub created_at: String,
    pub updated_at: String,
}

/// The fields a caller supplies to create an endpoint.  The password, when
/// given, is encrypted before it is persisted.
pub struct CreateEndpoint {
    pub name: String,
    pub url: String,
    pub insecure: bool,
    pub username: Option<String>,
    pub password: Option<String>,
}

/// The fields a caller may change on an endpoint.  Name, URL and the TLS
/// flag are required on update; a password of `None` leaves the stored
/// payload untouched.
pub struct UpdateEndpoint {
    pub name: Option<String>,
    pub url: Option<String>,
    pub insecure: Option<bool>,
    pub username: Option<String>,
    pub password: Option<String>,
}

/// What a read of an endpoint's credential found.  Only the logs ever see
/// the difference between the first two; see [`reveal_password`].
pub enum RevealOutcome {
    /// No payload is stored.
    NoCredential,
    /// A payload is stored but does not decrypt under this key.
    Undecryptable,
    /// The stored payload decrypted to this password.
    Revealed(String),
}

/// The payload `payload` holds exactly the password `pw` under key `key`,
/// for some nonce.
pub open spec fn reveals_to(payload: Seq<char>, key: Seq<u8>, pw: Seq<char>) -> bool {
    exists|n: Seq<u8>| n.len() == NONCE_LEN && payload == payload_text(key, n, encode_utf8(pw))
}

/// The payload's text decodes to raw bytes that open under the key to the
/// UTF-8 encoding of `pw`: what a read can legitimately reveal.  Unlike
/// [`reveals_to`], which speaks of payloads the cipher produced, this speaks
/// of what decryption accepts — the two coincide on every stored payload.
pub open spec fn opens_to(payload: Seq<char>, key: Seq<u8>, pw: Seq<char>) -> bool {
    exists|raw: Seq<u8>|
        payload == base64_of(raw) && raw.len() >= NONCE_LEN && opened_bytes(
            key,
            raw.take(NONCE_LEN as int),
            raw.skip(NONCE_LEN as int),
        ) == Some(encode_utf8(pw))
}

/// Encrypt a password for persistence.  A pure wrapper over the cipher: the
/// caller stores the returned payload in the endpoint record.
pub fn store(password: &str, key: &SymmetricKey) -> (r: Result<EncryptedPayload, CryptoError>)
    requires
        key.wf(),
    ensures
        r matches Ok(p) ==> reveals_to(p@, key@, password@),
        r matches Err(e) ==> e == CryptoError::Invalid,
{
    encrypt(password.as_bytes(), key)
}

/// Relies on `String::from_utf8` of std: it succeeds exactly on valid UTF-8
/// and returns its decoding.
#[verifier::external_body]
pub(crate) fn string_from_utf8(v: Vec<u8>) -> (r: Result<String, CryptoError>)
    ensures
        r matches Ok(s) ==> valid_utf8(v@) && s@ == decode_utf8(v@),
        r is Err ==> !valid_utf8(v@),
{
    match String::from_utf8(v) {
        Ok(s) => Ok(s),
        Err(_) => Err(CryptoError::Invalid),
    }
}

/// Read an endpoint's credential, reporting what was found: nothing stored,
/// stored but undecryptable (wrong key, corruption, tampering, or not a
/// text plaintext), or the password itself.  Never an error: a bad payload
/// must not abort the read path that runs into it.
///
/// The contract runs both ways.  A revealed password is exactly what the
/// stored payload opens to under this key ([`opens_to`]); when the payload
/// opens to nothing — including a plaintext that is not text — the outcome
/// is undecryptable, never a fabricated password.
pub fn reveal_outcome(endpoint: &Endpoint, key: &SymmetricKey) -> (r: RevealOutcome)
    requires
        key.wf(),
    ensures
        r == RevealOutcome::NoCredential <==> endpoint.password_encrypted is None,
        r matches RevealOutcome::Revealed(s) ==> (endpoint.password_encrypted matches Some(t)
            && opens_to(t@, key@, s@)),
        r == RevealOutcome::Undecryptable ==> (endpoint.password_encrypted is Some && forall|
            pw: Seq<char>,
        | !#[trigger] opens_to(endpoint.password_encrypted->Some_0@, key@, pw)),
        forall|pw: Seq<char>|
            (endpoint.password_encrypted is Some && #[trigger] reveals_to(
                endpoint.password_encrypted->Some_0@,
                key@,
                pw,
            )) ==> (r matches RevealOutcome::Revealed(s) && s@ == pw),
{
    let text = match &endpoint.password_encrypted {
        None => {
            return RevealOutcome::NoCredential;
        },
        Some(t) => t.clone(),
    };
    let ghost t_view = text@;
    let payload = EncryptedPayload { text };
    let result = decrypt(&payload, key);
    let outcome = match result {
        Err(_) => {
            proof {
                assert forall|pw: Seq<char>| !#[trigger] opens_to(t_view, key@, pw) by {
                    if opens_to(t_view, key@, pw) {
                        let raw = choose|raw: Seq<u8>|
                            t_view == base64_of(raw) && raw.len() >= NONCE_LEN && opened_bytes(
                                key@,
                                raw.take(NONCE_LEN as int),
                                raw.skip(NONCE_LEN as int),
                            ) == Some(encode_utf8(pw));
                        assert(false);
                    }
                }
            }
            RevealOutcome::Undecryptable
        },
        Ok(bytes) => {
            let ghost bytes_view = bytes@;
            match string_from_utf8(bytes) {
                Err(_) => {
                    proof {
                        assert forall|pw: Seq<char>| !#[trigger] opens_to(t_view, key@, pw) by {
                            if opens_to(t_view, key@, pw) {
                                let raw = choose|raw: Seq<u8>|
                                    t_view == base64_of(raw) && raw.len() >= NONCE_LEN
                                        && opened_bytes(
                                        key@,
                                        raw.take(NONCE_LEN as int),
                                        raw.skip(NONCE_LEN as int),
                                    ) == Some(encode_utf8(pw));
                                encode_utf8_valid_utf8(pw);
                                assert(false);
                            }
                        }
                    }
                    RevealOutcome::Undecryptable
                },
                Ok(s) => {
                    proof {
                        decode_utf8_encode_utf8(bytes_view);
                        let raw = choose|raw: Seq<u8>|
                            t_view == base64_of(raw) && raw.len() >= NONCE_LEN && opened_bytes(
                                key@,
                                raw.take(NONCE_LEN as int),
                                raw.skip(NONCE_LEN as int),
                            ) == Some(bytes_view);
                        assert(opened_bytes(
                            key@,
                            raw.take(NONCE_LEN as int),
                            raw.skip(NONCE_LEN as int),
                        ) == Some(encode_utf8(s@)));
                        assert(opens_to(t_view, key@, s@));
                    }
                    RevealOutcome::Revealed(s)
                },
            }
        },
    };
    proof {
        assert forall|pw: Seq<char>| #[trigger] reveals_to(t_view, key@, pw) implies (
        outcome matches RevealOutcome::Revealed(s) && s@ == pw) by {
            let n = choose|n: Seq<u8>|
                n.len() == NONCE_LEN && t_view == payload_text(key@, n, encode_utf8(pw));
            encode_utf8_valid_utf8(pw);
            encode_utf8_decode_utf8(pw);
        }
    }
    outcome
}

/// Read an endpoint's credential as the caller sees it: the password when
/// the stored payload decrypts, nothing otherwise — whether nothing was
/// stored or the payload is garbled.  The two cases are indistinguishable
/// here on purpose; [`reveal_outcome`] keeps them apart for logging.
///
/// The last clause is the whole story: something comes back exactly when a
/// payload is stored and opens under this key, and then it is that password.
pub fn reveal_password(endpoint: &Endpoint, key: &SymmetricKey) -> (r: Option<String>)
    requires
        key.wf(),
    ensures
        endpoint.password_encrypted is None ==> r is None,
        r matches Some(s) ==> (endpoint.password_encrypted matches Some(t) && opens_to(
            t@,
            key@,
            s@,
        )),
        forall|pw: Seq<char>|
            (endpoint.password_encrypted is Some && #[trigger] reveals_to(
                endpoint.password_encrypted->Some_0@,
                key@,
                pw,
            )) ==> (r matches Some(s) && s@ == pw),
        r is None <==> (endpoint.password_encrypted is None || forall|pw: Seq<char>|
            !#[trigger] opens_to(endpoint.password_encrypted->Some_0@, key@, pw)),
{
    match reveal_outcome(endpoint, key) {
        RevealOutcome::Revealed(s) => Some(s),
        RevealOutcome::NoCredential => None,
        RevealOutcome::Undecryptable => None,
    }
}

/// Encrypt an optional password for a create or update: `None` stays `None`,
/// `Some` becomes the payload text to persist.
pub fn encrypted_password_field(password: &Option<String>, key: &SymmetricKey) -> (r: Result<
    Option<String>,
    CryptoError,
>)
    requires
        key.wf(),
    ensures
        password is None ==> r == Ok::<Option<String>, CryptoError>(None),
        r matches Ok(f) ==> (f matches Some(t) ==> (password matches Some(pw) && reveals_to(
            t@,
            key@,
            pw@,
        ))),
        r matches Ok(f) ==> (password is Some <==> f is Some),
{
    match password {
        None => Ok(None),
        Some(pw) => {
            match store(pw.as_str(), key) {
                Ok(p) => Ok(Some(p.text)),
                Err(e) => Err(e),
            }
        },
    }
}

/// An update may only be applied when its required fields are present:
/// name, URL and the TLS flag.
pub fn update_is_complete(u: &UpdateEndpoint) -> (r: bool)
    ensures
        r == (u.name is Some && u.url is Some && u.insecure is Some),
{
    u.name.is_some() && u.url.is_some() && u.insecure.is_some()
}

} // verus!
