//! Key management and application paths.
//!
//! The symmetric key lives hex-encoded in a single-line file under the
//! platform's configuration directory.  The library does the parsing,
//! validation and rendering; reading and writing the file itself is the
//! caller's (I/O) side.  A key of any decoded length other than 32 bytes is a
//! fatal configuration error: it could never decrypt existing payloads.

use vstd::prelude::*;
use vstd::string::*;

use crate::crypto::{os_random_bytes, SymmetricKey, KEY_LEN};
use crate::errors::ConfigError;
use crate::text::{is_space, lemma_trim_no_space, trim_spaces, trim_spec};

verus! {

// ---------------------------------------------------------------------------
// Paths
// ---------------------------------------------------------------------------
/// A path joined with one more component, with `/` between.
pub open spec fn joined_path(base: Seq<char>, name: Seq<char>) -> Seq<char> {
    base + "/"@ + name
}

/// Join a base path and a component.
pub fn join_path(base: &str, name: &str) -> (r: String)
    ensures
        r@ == joined_path(base@, name@),
{
    let mut s: String = base.to_owned();
    s.append("/");
    s.append(name);
    s
}

/// Relies on `dirs::config_dir`: the platform's per-user configuration
/// directory, when the platform defines one.  The result depends on the
/// environment, so nothing relates one call to the next.
#[verifier::external_body]
fn platform_config_dir() -> (r: Option<String>) {
    dirs::config_dir().map(|p| p.to_string_lossy().into_owned())
}

/// The application's directory under the platform configuration directory.
pub fn get_app_dir() -> (r: Result<String, ConfigError>)
    ensures
        r matches Ok(p) ==> exists|base: Seq<char>| p@ == joined_path(base, "elastic-explorer"@),
        r matches Err(e) ==> e == ConfigError::NoConfigDir,
{
    match platform_config_dir() {
        Some(base) => {
            let p = join_path(base.as_str(), "elastic-explorer");
            proof {
                assert(p@ == joined_path(base@, "elastic-explorer"@));
            }
            Ok(p)
        },
        None => Err(ConfigError::NoConfigDir),
    }
}

/// The data directory; the same directory as the application's.
pub fn get_data_dir() -> (r: Result<String, ConfigError>)
    ensures
        r matches Ok(p) ==> exists|base: Seq<char>| p@ == joined_path(base, "elastic-explorer"@),
        r matches Err(e) ==> e == ConfigError::NoConfigDir,
{
    get_app_dir()
}

/// Where the local database lives.
pub fn get_db_path() -> (r: Result<String, ConfigError>)
    ensures
        r matches Ok(p) ==> exists|base: Seq<char>|
            p@ == joined_path(
                joined_path(base, "elastic-explorer"@),
                "elastic-explorer.db"@,
            ),
        r matches Err(e) ==> e == ConfigError::NoConfigDir,
{
    match get_data_dir() {
        Ok(dir) => Ok(join_path(dir.as_str(), "elastic-explorer.db")),
        Err(e) => Err(e),
    }
}

/// Where the encryption key file lives.
pub fn get_key_path() -> (r: Result<String, ConfigError>)
    ensures
        r matches Ok(p) ==> exists|base: Seq<char>|
            p@ == joined_path(joined_path(base, "elastic-explorer"@), "db.key"@),
        r matches Err(e) ==> e == ConfigError::NoConfigDir,
{
    match get_app_dir() {
        Ok(dir) => Ok(join_path(dir.as_str(), "db.key")),
        Err(e) => Err(e),
    }
}

// ---------------------------------------------------------------------------
// Hex encoding of the key file
// ---------------------------------------------------------------------------
/// The lowercase character for a value below sixteen.
pub open spec fn hex_digit(d: int) -> char {
    if d == 0 {
        '0'
    } else if d == 1 {
        '1'
    } else if d == 2 {
        '2'
    } else if d == 3 {
        '3'
    } else if d == 4 {
        '4'
    } else if d == 5 {
        '5'
    } else if d == 6 {
        '6'
    } else if d == 7 {
        '7'
    } else if d == 8 {
        '8'
    } else if d == 9 {
        '9'
    } else if d == 10 {
        'a'
    } else if d == 11 {
        'b'
    } else if d == 12 {
        'c'
    } else if d == 13 {
        'd'
    } else if d == 14 {
        'e'
    } else {
        'f'
    }
}

/// The lowercase hex encoding of a byte sequence: two digits per byte, high
/// nibble first.
pub open spec fn hex_of(bytes: Seq<u8>) -> Seq<char>
    decreases bytes.len(),
{
    if bytes.len() == 0 {
        Seq::empty()
    } else {
        seq![hex_digit(bytes[0] as int / 16), hex_digit(bytes[0] as int % 16)] + hex_of(
            bytes.drop_first(),
        )
    }
}

/// A hex rendering holds no whitespace.
pub proof fn lemma_hex_no_space(bytes: Seq<u8>)
    ensures
        forall|i: int| 0 <= i < hex_of(bytes).len() ==> !is_space(#[trigger] hex_of(bytes)[i]),
    decreases bytes.len(),
{
    if bytes.len() > 0 {
        lemma_hex_no_space(bytes.drop_first());
        assert forall|i: int| 0 <= i < hex_of(bytes).len() implies !is_space(
            #[trigger] hex_of(bytes)[i],
        ) by {
            if i >= 2 {
                assert(hex_of(bytes)[i] == hex_of(bytes.drop_first())[i - 2]);
            }
        }
    }
}

/// Relies on `hex::encode`: two lowercase digits per byte, high nibble first.
#[verifier::external_body]
fn hex_encode(bytes: &[u8]) -> (r: String)
    ensures
        r@ == hex_of(bytes@),
{
    hex::encode(bytes)
}

/// Relies on `hex::decode`: it accepts an even number of digits in either
/// case, so it inverts `hex::encode`; a failure means no byte sequence
/// renders to the input.
#[verifier::external_body]
fn hex_decode(text: &str) -> (r: Result<Vec<u8>, ConfigError>)
    ensures
        r matches Ok(v) ==> text@.len() == 2 * v@.len(),
        r matches Ok(v) ==> forall|b: Seq<u8>| text@ == hex_of(b) ==> b == v@,
        r is Err ==> forall|b: Seq<u8>| text@ != hex_of(b),
        r matches Err(e) ==> e == ConfigError::InvalidKey,
{
    match hex::decode(text) {
        Ok(v) => Ok(v),
        Err(_) => Err(ConfigError::InvalidKey),
    }
}

// ---------------------------------------------------------------------------
// Loading and creating the key
// ---------------------------------------------------------------------------
/// Parse the contents of a key file: trim, hex-decode, and require exactly 32
/// bytes.  Anything else is the fatal [`ConfigError::InvalidKey`] — in
/// particular a file of 31 or 33 decoded bytes is rejected, never padded or
/// truncated.
pub fn parse_key_text(contents: &str) -> (r: Result<SymmetricKey, ConfigError>)
    ensures
        r matches Ok(k) ==> k.wf(),
        forall|b: Seq<u8>|
            trim_spec(contents@) == hex_of(b) && b.len() == KEY_LEN ==> (r matches Ok(k) && k@
                == b),
        forall|b: Seq<u8>| trim_spec(contents@) == hex_of(b) && b.len() != KEY_LEN ==> r is Err,
        r matches Err(e) ==> e == ConfigError::InvalidKey,
{
    let trimmed = trim_spaces(contents);
    match hex_decode(trimmed) {
        Ok(v) => {
            if v.len() == KEY_LEN {
                Ok(SymmetricKey { bytes: v })
            } else {
                Err(ConfigError::InvalidKey)
            }
        },
        Err(e) => Err(e),
    }
}

/// Render a key as the single hex line its file holds.
pub fn render_key_text(key: &SymmetricKey) -> (r: String)
    ensures
        r@ == hex_of(key@),
{
    hex_encode(key.bytes.as_slice())
}

/// Draw a fresh 32-byte key from the entropy source, together with the file
/// contents to persist it under.
pub fn create_key() -> (r: Result<(SymmetricKey, String), ConfigError>)
    ensures
        r matches Ok(p) ==> p.0.wf() && p.1@ == hex_of(p.0@),
        r matches Err(e) ==> e == ConfigError::Entropy,
{
    match os_random_bytes(KEY_LEN) {
        Ok(bytes) => {
            let key = SymmetricKey { bytes };
            let text = render_key_text(&key);
            Ok((key, text))
        },
        Err(_) => Err(ConfigError::Entropy),
    }
}

/// The decision at startup: when a key file exists its contents are parsed
/// and validated; when none exists a fresh key is drawn and handed back with
/// the file contents to write.  The caller only reads and writes the file.
///
/// Loading is idempotent: a file a fresh create wrote parses back to the very
/// key that was created (see [`lemma_key_file_round_trip`]).
pub fn load_or_create_key(existing: Option<&str>) -> (r: Result<
    (SymmetricKey, Option<String>),
    ConfigError,
>)
    ensures
        r matches Ok(p) ==> p.0.wf(),
        existing matches Some(c) ==> {
            &&& (r matches Ok(p) ==> p.1 is None)
            &&& forall|b: Seq<u8>|
                trim_spec(c@) == hex_of(b) && b.len() == KEY_LEN ==> (r matches Ok(p) && p.0@ == b)
            &&& forall|b: Seq<u8>| trim_spec(c@) == hex_of(b) && b.len() != KEY_LEN ==> r is Err
        },
        existing is None ==> (r matches Ok(p) ==> (p.1 matches Some(f) && f@ == hex_of(p.0@))),
{
    match existing {
        Some(contents) => {
            match parse_key_text(contents) {
                Ok(key) => Ok((key, None)),
                Err(e) => Err(e),
            }
        },
        None => {
            match create_key() {
                Ok((key, text)) => Ok((key, Some(text))),
                Err(e) => Err(e),
            }
        },
    }
}

/// The key-file round trip: rendering is canonical lowercase hex, which
/// trimming leaves alone, so the file a create wrote parses back — by
/// [`parse_key_text`]'s contract — to exactly the key that was written.
/// Loading the key is therefore idempotent: every later load returns the
/// same key bytes.
pub proof fn lemma_key_file_round_trip(b: Seq<u8>)
    ensures
        trim_spec(hex_of(b)) == hex_of(b),
{
    lemma_hex_no_space(b);
    lemma_trim_no_space(hex_of(b));
}

} // verus!
