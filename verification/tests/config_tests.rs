use elastic_explorer::config::{
    get_app_dir, get_data_dir, get_db_path, get_key_path, load_or_create_key, parse_key_text,
    render_key_text,
};
use elastic_explorer::errors::ConfigError;

#[test]
fn test_app_dir_path() {
    let app_dir = get_app_dir().unwrap();
    assert!(app_dir.contains("elastic-explorer"));
}

#[test]
fn test_data_dir_path() {
    let data_dir = get_data_dir().unwrap();
    assert!(data_dir.contains("elastic-explorer"));
}

#[test]
fn db_and_key_paths_live_under_the_app_dir() {
    let db = get_db_path().unwrap();
    let key = get_key_path().unwrap();
    assert!(db.ends_with("elastic-explorer/elastic-explorer.db"));
    assert!(key.ends_with("elastic-explorer/db.key"));
}

#[test]
fn load_or_create_key_is_idempotent() {
    // First start: no file yet; a fresh key and its file contents come back.
    let (key1, written) = load_or_create_key(None).unwrap();
    let file = written.expect("a fresh key must come with file contents");
    assert_eq!(key1.bytes.len(), 32);
    // Second start: the file exists; the same key bytes come back, twice.
    let (key2, none2) = load_or_create_key(Some(&file)).unwrap();
    assert!(none2.is_none());
    assert_eq!(key1.bytes, key2.bytes);
    let (key3, _) = load_or_create_key(Some(&file)).unwrap();
    assert_eq!(key2.bytes, key3.bytes);
}

#[test]
fn key_file_round_trips_through_render_and_parse() {
    let bytes: Vec<u8> = (0u8..32).collect();
    let key = elastic_explorer::crypto::SymmetricKey { bytes: bytes.clone() };
    let text = render_key_text(&key);
    assert_eq!(text.len(), 64);
    let parsed = parse_key_text(&text).unwrap();
    assert_eq!(parsed.bytes, bytes);
    // Whitespace around the line is tolerated.
    let padded = format!("  {}\n", text);
    assert_eq!(parse_key_text(&padded).unwrap().bytes, bytes);
}

#[test]
fn key_of_31_decoded_bytes_is_rejected() {
    let text = "ab".repeat(31);
    assert!(matches!(parse_key_text(&text), Err(ConfigError::InvalidKey)));
}

#[test]
fn key_of_33_decoded_bytes_is_rejected() {
    let text = "ab".repeat(33);
    assert!(matches!(parse_key_text(&text), Err(ConfigError::InvalidKey)));
    // Non-hex contents are the same fatal error.
    assert!(matches!(parse_key_text("zz"), Err(ConfigError::InvalidKey)));
}
