use base64::Engine;

use elastic_explorer::crypto::{decrypt, encrypt, EncryptedPayload, SymmetricKey};
use elastic_explorer::errors::CryptoError;
use elastic_explorer::migrate::{
    classify_endpoint_columns, generate_keychain_id, migrate_record, migrate_with_secret,
    migration_needed, move_fallback_step, resolve_legacy_plaintext, LegacyEndpointRecord,
    MigrationOutcome, MoveStep,
};
use elastic_explorer::vault::{
    encrypted_password_field, reveal_outcome, reveal_password, store, update_is_complete, Endpoint,
    RevealOutcome, UpdateEndpoint,
};

fn test_key() -> SymmetricKey {
    SymmetricKey { bytes: (0u8..32).collect() }
}

fn other_key() -> SymmetricKey {
    SymmetricKey { bytes: (100u8..132).collect() }
}

fn endpoint_with_payload(payload: Option<String>) -> Endpoint {
    Endpoint {
        id: 1,
        name: "prod".to_string(),
        url: "https://example.invalid:9200".to_string(),
        insecure: false,
        username: Some("elastic".to_string()),
        password_encrypted: payload,
        created_at: "2024-01-01 00:00:00".to_string(),
        updated_at: "2024-01-01 00:00:00".to_string(),
    }
}

#[test]
fn encrypt_then_decrypt_returns_the_plaintext() {
    let key = test_key();
    let plaintext = b"correct horse battery staple";
    let payload = encrypt(plaintext, &key).unwrap();
    let back = decrypt(&payload, &key).unwrap();
    assert_eq!(back, plaintext.to_vec());
}

#[test]
fn two_encryptions_of_the_same_input_differ() {
    let key = test_key();
    let a = encrypt(b"same plaintext", &key).unwrap();
    let b = encrypt(b"same plaintext", &key).unwrap();
    assert_ne!(a.text, b.text);
}

#[test]
fn short_payload_fails_with_the_same_kind_as_a_tag_failure() {
    let key = test_key();
    // Fewer than 12 decoded bytes: "AAAA" is three zero bytes.
    let short = EncryptedPayload { text: "AAAA".to_string() };
    let short_err = decrypt(&short, &key).unwrap_err();
    // A tampered payload: flip the first character of a real one.
    let good = encrypt(b"secret", &key).unwrap();
    let mut chars: Vec<char> = good.text.chars().collect();
    chars[0] = if chars[0] == 'A' { 'B' } else { 'A' };
    let tampered = EncryptedPayload { text: chars.into_iter().collect() };
    let tampered_err = decrypt(&tampered, &key).unwrap_err();
    assert_eq!(short_err, tampered_err);
    assert_eq!(short_err, CryptoError::Invalid);
}

#[test]
fn decrypt_under_the_wrong_key_fails_closed() {
    let payload = encrypt(b"secret", &test_key()).unwrap();
    assert!(decrypt(&payload, &other_key()).is_err());
}

#[test]
fn payload_decodes_to_nonce_ciphertext_and_tag() {
    let key = test_key();
    let payload = encrypt(b"abc", &key).unwrap();
    let raw = base64::prelude::BASE64_STANDARD.decode(&payload.text).unwrap();
    // 12-byte nonce, ciphertext as long as the plaintext, 16-byte tag.
    assert_eq!(raw.len(), 12 + 3 + 16);
}

#[test]
fn non_text_plaintext_counts_as_no_password() {
    let key = test_key();
    // A payload that decrypts fine, but to bytes that are not UTF-8.
    let payload = encrypt(&[0xff, 0xfe, 0x80], &key).unwrap();
    assert_eq!(decrypt(&payload, &key).unwrap(), vec![0xff, 0xfe, 0x80]);
    let endpoint = endpoint_with_payload(Some(payload.text));
    assert_eq!(reveal_password(&endpoint, &key), None);
    assert!(matches!(reveal_outcome(&endpoint, &key), RevealOutcome::Undecryptable));
}

#[test]
fn reveal_returns_the_stored_password() {
    let key = test_key();
    let payload = store("hunter2", &key).unwrap();
    let endpoint = endpoint_with_payload(Some(payload.text));
    assert_eq!(reveal_password(&endpoint, &key), Some("hunter2".to_string()));
}

#[test]
fn reveal_of_a_corrupted_payload_returns_nothing_without_raising() {
    let key = test_key();
    let endpoint = endpoint_with_payload(Some("!!not base64!!".to_string()));
    assert_eq!(reveal_password(&endpoint, &key), None);
    assert!(matches!(reveal_outcome(&endpoint, &key), RevealOutcome::Undecryptable));
}

#[test]
fn reveal_under_a_foreign_key_returns_nothing() {
    let payload = store("hunter2", &test_key()).unwrap();
    let endpoint = endpoint_with_payload(Some(payload.text));
    assert_eq!(reveal_password(&endpoint, &other_key()), None);
}

#[test]
fn reveal_without_a_payload_returns_nothing() {
    let key = test_key();
    let endpoint = endpoint_with_payload(None);
    assert_eq!(reveal_password(&endpoint, &key), None);
    assert!(matches!(reveal_outcome(&endpoint, &key), RevealOutcome::NoCredential));
}

#[test]
fn encrypted_password_field_keeps_none_and_encrypts_some() {
    let key = test_key();
    assert_eq!(encrypted_password_field(&None, &key).unwrap(), None);
    let field = encrypted_password_field(&Some("pw".to_string()), &key).unwrap();
    let endpoint = endpoint_with_payload(field);
    assert_eq!(reveal_password(&endpoint, &key), Some("pw".to_string()));
}

#[test]
fn update_requires_name_url_and_tls_flag() {
    let complete = UpdateEndpoint {
        name: Some("a".to_string()),
        url: Some("http://x".to_string()),
        insecure: Some(false),
        username: None,
        password: None,
    };
    assert!(update_is_complete(&complete));
    let missing = UpdateEndpoint { url: None, ..complete };
    assert!(!update_is_complete(&missing));
}

#[test]
fn test_generate_keychain_id() {
    let id = generate_keychain_id(42);
    assert_eq!(id, "endpoint-42");
}

#[test]
fn keychain_id_of_a_negative_identifier() {
    assert_eq!(generate_keychain_id(-7), "endpoint--7");
}

fn legacy_record(
    keychain: Option<&str>,
    fallback: Option<&str>,
) -> LegacyEndpointRecord {
    LegacyEndpointRecord {
        id: 9,
        name: "old".to_string(),
        url: "http://legacy:9200".to_string(),
        insecure: true,
        username: Some("admin".to_string()),
        password_keychain_id: keychain.map(|s| s.to_string()),
        password_fallback: fallback.map(|s| s.to_string()),
        created_at: "2020-06-01 12:00:00".to_string(),
        updated_at: "2020-06-01 12:00:00".to_string(),
    }
}

#[test]
fn migration_recovers_the_fallback_password() {
    let key = test_key();
    // The external-secret-store id is unreachable; the base64 fallback holds
    // "pass123".  Migration must not lose it.
    let record = legacy_record(Some("endpoint-424242"), Some("cGFzczEyMw=="));
    let (endpoint, outcome) = migrate_record(record, &key);
    assert_eq!(outcome, MigrationOutcome::Migrated);
    assert_eq!(endpoint.id, 9);
    assert_eq!(endpoint.name, "old");
    assert_eq!(reveal_password(&endpoint, &key), Some("pass123".to_string()));
}

#[test]
fn migration_without_any_secret_is_a_no_op() {
    let key = test_key();
    let (endpoint, outcome) = migrate_record(legacy_record(None, None), &key);
    assert_eq!(outcome, MigrationOutcome::NoSecret);
    assert!(endpoint.password_encrypted.is_none());
}

#[test]
fn migration_with_a_garbled_fallback_warns_and_goes_on() {
    let key = test_key();
    let record = legacy_record(None, Some("%%% not base64 %%%"));
    let (endpoint, outcome) = migrate_record(record, &key);
    assert_eq!(outcome, MigrationOutcome::SecretLost);
    assert!(endpoint.password_encrypted.is_none());
}

#[test]
fn resolution_prefers_the_secret_store_answer() {
    let from_store = resolve_legacy_plaintext(
        Some("from-store".to_string()),
        &Some("cGFzczEyMw==".to_string()),
    );
    assert_eq!(from_store, Some("from-store".to_string()));
    let from_fallback = resolve_legacy_plaintext(None, &Some("cGFzczEyMw==".to_string()));
    assert_eq!(from_fallback, Some("pass123".to_string()));
    assert_eq!(resolve_legacy_plaintext(None, &None), None);
}

#[test]
fn migrate_with_secret_round_trips() {
    let key = test_key();
    let (endpoint, outcome) =
        migrate_with_secret(legacy_record(None, None), Some("s3cret".to_string()), &key);
    assert_eq!(outcome, MigrationOutcome::Migrated);
    assert_eq!(reveal_password(&endpoint, &key), Some("s3cret".to_string()));
}

#[test]
fn schema_inspection_drives_the_skip_decision() {
    let legacy_schema = vec![
        "id".to_string(),
        "name".to_string(),
        "password_keychain_id".to_string(),
        "password_fallback".to_string(),
    ];
    let (has_legacy, has_encrypted) = classify_endpoint_columns(&legacy_schema);
    assert!(has_legacy);
    assert!(!has_encrypted);
    assert!(migration_needed(has_legacy, has_encrypted));

    let current_schema = vec!["id".to_string(), "password_encrypted".to_string()];
    let (has_legacy, has_encrypted) = classify_endpoint_columns(&current_schema);
    assert!(!has_legacy);
    assert!(has_encrypted);
    assert!(!migration_needed(has_legacy, has_encrypted));
}

#[test]
fn filesystem_move_strategy_has_two_fallbacks() {
    assert_eq!(move_fallback_step(false, true), MoveStep::Renamed);
    assert_eq!(move_fallback_step(true, true), MoveStep::Renamed);
    assert_eq!(move_fallback_step(false, false), MoveStep::CopyThenDelete);
    assert_eq!(move_fallback_step(true, false), MoveStep::RecurseThenRemove);
}

#[test]
fn keychain_ids_cover_the_extreme_identifiers() {
    assert_eq!(generate_keychain_id(i64::MAX), "endpoint-9223372036854775807");
    assert_eq!(generate_keychain_id(i64::MIN), "endpoint--9223372036854775808");
    assert_eq!(generate_keychain_id(0), "endpoint-0");
}
