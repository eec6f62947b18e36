//! The one-time migration away from the legacy two-tier secret storage.
//!
//! The legacy scheme kept, per endpoint, a reference into the operating
//! system's secret store and a base64-encoded plaintext fallback column.
//! Migration resolves the actual plaintext — secret store first, fallback
//! second — re-encrypts it under the current key, and drops both legacy
//! fields.  A record whose secret cannot be resolved from either source
//! keeps going without a password: that is surfaced as a warning outcome,
//! never a failure, so a broken record cannot block startup.

use vstd::prelude::*;
use vstd::string::*;
use vstd::utf8::{
    decode_utf8_encode_utf8, encode_utf8, encode_utf8_decode_utf8, encode_utf8_valid_utf8,
};

use crate::crypto::{base64_decode, base64_of, SymmetricKey};
use crate::errors::SecretStoreError;
use crate::text::{dec_i64, i64_to_dec, str_equal};
use crate::vault::{reveals_to, store, string_from_utf8, Endpoint};

verus! {

/// A persisted endpoint as the legacy schema shaped it: the same identity
/// fields, plus the two legacy secret fields that migration resolves and
/// drops.
pub struct LegacyEndpointRecord {
    pub id: i64,
    pub name: String,
    pub url: String,
    pub insecure: bool,
    pub username: Option<String>,
    pub password_keychain_id: Option<String>,
    pub password_fallback: Option<String>,
    pub created_at: String,
    pub updated_at: String,
}

/// How migrating one record went.
#[derive(Debug, Clone, Copy, PartialEq, Eq, Structural)]
pub enum MigrationOutcome {
    /// A plaintext was resolved and re-encrypted under the current key.
    Migrated,
    /// The record had no legacy secret to begin with.
    NoSecret,
    /// The record referenced a legacy secret, but none could be resolved or
    /// re-encrypted; the endpoint goes forward without a password.  Worth a
    /// warning in the caller's log, never a failure.
    SecretLost,
}

/// The identifier under which an endpoint's secret was filed in the
/// operating system's secret store.
pub fn generate_keychain_id(endpoint_id: i64) -> (r: String)
    ensures
        r@ == "endpoint-"@ + dec_i64(endpoint_id as int),
{
    let mut s: String = "endpoint-".to_owned();
    let digits = i64_to_dec(endpoint_id);
    s.append(digits.as_str());
    s
}

/// Relies on `keyring::Entry::new` and `Entry::get_password`: looks the
/// secret up in the operating system's credential store under the
/// application's service name.  What comes back depends on machine state,
/// so nothing is promised of the value and two calls are unrelated.
#[verifier::external_body]
pub fn get_password(keychain_id: &str) -> (r: Result<String, SecretStoreError>) {
    let entry = match keyring::Entry::new("elastic-explorer", keychain_id) {
        Ok(e) => e,
        Err(_) => {
            return Err(SecretStoreError::Unavailable);
        },
    };
    match entry.get_password() {
        Ok(p) => Ok(p),
        Err(_) => Err(SecretStoreError::Unavailable),
    }
}

/// Decode a legacy plaintext fallback: base64, then UTF-8.  Returns the
/// plaintext exactly when the field is the canonical encoding of one.
pub fn decode_fallback(fallback: &str) -> (r: Option<String>)
    ensures
        r matches Some(s) ==> fallback@ == base64_of(encode_utf8(s@)),
        forall|pw: Seq<char>|
            fallback@ == #[trigger] base64_of(encode_utf8(pw)) ==> (r matches Some(s) && s@
                == pw),
{
    let bytes = match base64_decode(fallback) {
        Ok(v) => v,
        Err(_) => {
            return None;
        },
    };
    let ghost bytes_view = bytes@;
    let result = match string_from_utf8(bytes) {
        Ok(s) => Some(s),
        Err(_) => None,
    };
    proof {
        if result is Some {
            decode_utf8_encode_utf8(bytes_view);
        }
        assert forall|pw: Seq<char>| fallback@ == #[trigger] base64_of(encode_utf8(pw)) implies (
        result matches Some(s) && s@ == pw) by {
            encode_utf8_valid_utf8(pw);
            encode_utf8_decode_utf8(pw);
        }
    }
    result
}

/// Resolve a legacy record's plaintext from what the secret store returned
/// and the fallback column: the store's answer wins, the fallback is tried
/// on failure or absence, and a record with neither stays secret-less.
pub fn resolve_legacy_plaintext(keychain_result: Option<String>, fallback: &Option<String>) -> (r:
    Option<String>)
    ensures
        keychain_result matches Some(p) ==> r == Some(p),
        keychain_result is None && fallback is None ==> r is None,
        keychain_result is None && fallback is Some ==> {
            &&& (r matches Some(s) ==> fallback->Some_0@ == base64_of(encode_utf8(s@)))
            &&& forall|pw: Seq<char>|
                fallback->Some_0@ == #[trigger] base64_of(encode_utf8(pw)) ==> (r matches Some(s)
                    && s@ == pw)
        },
{
    match keychain_result {
        Some(p) => Some(p),
        None => {
            match fallback {
                Some(f) => decode_fallback(f.as_str()),
                None => None,
            }
        },
    }
}

/// Re-shape a legacy record into the current schema, given the plaintext
/// that resolution found (or did not): every identity field is carried
/// over, the legacy fields are dropped, and the payload — when a plaintext
/// was resolved and encryption succeeded — decrypts back to exactly that
/// plaintext under the given key.
pub fn migrate_with_secret(record: LegacyEndpointRecord, resolved: Option<String>, key: &SymmetricKey)
    -> (r: (Endpoint, MigrationOutcome))
    requires
        key.wf(),
    ensures
        r.0.id == record.id && r.0.name == record.name && r.0.url == record.url && r.0.insecure
            == record.insecure && r.0.username == record.username && r.0.created_at
            == record.created_at && r.0.updated_at == record.updated_at,
        resolved matches Some(pw) ==> {
            &&& (r.0.password_encrypted matches Some(t) ==> reveals_to(t@, key@, pw@))
            &&& (r.0.password_encrypted is Some <==> r.1 == MigrationOutcome::Migrated)
            &&& (r.0.password_encrypted is None ==> r.1 == MigrationOutcome::SecretLost)
        },
        resolved is None ==> r.0.password_encrypted is None,
        resolved is None && (record.password_keychain_id is Some || record.password_fallback
            is Some) ==> r.1 == MigrationOutcome::SecretLost,
        resolved is None && record.password_keychain_id is None && record.password_fallback
            is None ==> r.1 == MigrationOutcome::NoSecret,
{
    let had_reference = record.password_keychain_id.is_some() || record.password_fallback.is_some();
    let (payload, outcome) = match resolved {
        Some(pw) => {
            match store(pw.as_str(), key) {
                Ok(p) => (Some(p.text), MigrationOutcome::Migrated),
                Err(_) => (None, MigrationOutcome::SecretLost),
            }
        },
        None => {
            if had_reference {
                (None, MigrationOutcome::SecretLost)
            } else {
                (None, MigrationOutcome::NoSecret)
            }
        },
    };
    let endpoint = Endpoint {
        id: record.id,
        name: record.name,
        url: record.url,
        insecure: record.insecure,
        username: record.username,
        password_encrypted: payload,
        created_at: record.created_at,
        updated_at: record.updated_at,
    };
    (endpoint, outcome)
}

/// Migrate one legacy record: look its secret up in the operating system's
/// store when it has a reference, fall back to the base64 column, re-encrypt
/// under the current key.  What the store answers depends on the machine, so
/// the contract promises the exact payload only on the paths that do not go
/// through it — in particular, a record without a store reference whose
/// fallback decodes to a plaintext is re-encrypted to a payload holding
/// exactly that plaintext.
pub fn migrate_record(record: LegacyEndpointRecord, key: &SymmetricKey) -> (r: (
    Endpoint,
    MigrationOutcome,
))
    requires
        key.wf(),
    ensures
        r.0.id == record.id && r.0.name == record.name && r.0.url == record.url && r.0.insecure
            == record.insecure && r.0.username == record.username && r.0.created_at
            == record.created_at && r.0.updated_at == record.updated_at,
        r.0.password_encrypted matches Some(t) ==> exists|pw: Seq<char>|
            #[trigger] reveals_to(t@, key@, pw),
        record.password_keychain_id is None && record.password_fallback is None ==> (
        r.0.password_encrypted is None && r.1 == MigrationOutcome::NoSecret),
        record.password_keychain_id is None && fallback_is(record.password_fallback) ==> {
            forall|pw: Seq<char>|
                record.password_fallback->Some_0@ == #[trigger] base64_of(encode_utf8(pw)) ==> {
                    &&& (r.0.password_encrypted matches Some(t) ==> reveals_to(t@, key@, pw))
                    &&& (r.0.password_encrypted is None ==> r.1 == MigrationOutcome::SecretLost)
                }
        },
{
    let keychain_result: Option<String> = match &record.password_keychain_id {
        Some(id) => {
            if id.as_str().is_empty() {
                None
            } else {
                match get_password(id.as_str()) {
                    Ok(p) => Some(p),
                    Err(_) => None,
                }
            }
        },
        None => None,
    };
    let resolved = resolve_legacy_plaintext(keychain_result, &record.password_fallback);
    migrate_with_secret(record, resolved, key)
}

/// Whether the fallback field is present.  (A helper name so the contract
/// above can quantify without binding the field twice.)
pub open spec fn fallback_is(f: Option<String>) -> bool {
    f is Some
}

/// Whether the endpoints table still carries the legacy password columns,
/// and whether it already carries the encrypted one: the two facts the
/// startup schema inspection needs.
pub fn classify_endpoint_columns(columns: &Vec<String>) -> (r: (bool, bool))
    ensures
        r.0 == exists|i: int|
            0 <= i < columns@.len() && (#[trigger] columns@[i]@ == "password_keychain_id"@
                || columns@[i]@ == "password_fallback"@),
        r.1 == exists|i: int| 0 <= i < columns@.len() && #[trigger] columns@[i]@
            == "password_encrypted"@,
{
    let mut has_legacy = false;
    let mut has_encrypted = false;
    let n = columns.len();
    let mut i: usize = 0;
    while i < n
        invariant
            0 <= i <= n,
            n == columns@.len(),
            has_legacy == exists|k: int|
                0 <= k < i && (#[trigger] columns@[k]@ == "password_keychain_id"@ || columns@[k]@
                    == "password_fallback"@),
            has_encrypted == exists|k: int| 0 <= k < i && #[trigger] columns@[k]@
                == "password_encrypted"@,
        decreases n - i,
    {
        let name = &columns[i];
        if str_equal(name.as_str(), "password_keychain_id") || str_equal(
            name.as_str(),
            "password_fallback",
        ) {
            has_legacy = true;
        }
        if str_equal(name.as_str(), "password_encrypted") {
            has_encrypted = true;
        }
        i = i + 1;
    }
    (has_legacy, has_encrypted)
}

/// The skip decision: the schema migration runs only while the legacy
/// columns are still there or the encrypted column is still missing, so
/// running it on every startup is idempotent and cheap.
pub fn migration_needed(has_legacy_columns: bool, has_encrypted_column: bool) -> (r: bool)
    ensures
        r == (has_legacy_columns || !has_encrypted_column),
{
    has_legacy_columns || !has_encrypted_column
}

/// One step of the best-effort filesystem relocation strategy: try the
/// atomic rename first; when it fails, fall back to copy-then-delete for a
/// file and to recurse-then-remove for a directory.
#[derive(Debug, Clone, Copy, PartialEq, Eq, Structural)]
pub enum MoveStep {
    /// The atomic rename succeeded; nothing more to do.
    Renamed,
    /// Copy the file across, then delete the original.
    CopyThenDelete,
    /// Move the directory's entries one by one, then remove the empty
    /// original.
    RecurseThenRemove,
}

/// Decide the fallback for one directory entry after attempting the atomic
/// rename.
pub fn move_fallback_step(is_dir: bool, rename_succeeded: bool) -> (r: MoveStep)
    ensures
        rename_succeeded ==> r == MoveStep::Renamed,
        !rename_succeeded && is_dir ==> r == MoveStep::RecurseThenRemove,
        !rename_succeeded && !is_dir ==> r == MoveStep::CopyThenDelete,
{
    if rename_succeeded {
        MoveStep::Renamed
    } else if is_dir {
        MoveStep::RecurseThenRemove
    } else {
        MoveStep::CopyThenDelete
    }
}

} // verus!
