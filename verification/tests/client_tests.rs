use elastic_explorer::client::{response_to_result, search_path, EsClient};
use elastic_explorer::errors::{ProtocolError, RemoteError, UnsupportedError};
use elastic_explorer::version::{capability_path, Capability, EsVersion};

#[test]
fn test_version_parsing() {
    let v = EsVersion::from_string("7.17.0").unwrap();
    assert_eq!(v.major, 7);
    assert_eq!(v.minor, 17);
    assert_eq!(v.patch, 0);

    let v2 = EsVersion::from_string("8.11.1").unwrap();
    assert_eq!(v2.major, 8);
    assert_eq!(v2.minor, 11);
    assert_eq!(v2.patch, 1);
}

#[test]
fn version_parsing_rejects_malformed_strings() {
    assert!(matches!(EsVersion::from_string("7.17"), Err(ProtocolError::BadVersion)));
    assert!(matches!(EsVersion::from_string("a.b.c"), Err(ProtocolError::BadVersion)));
    assert!(matches!(EsVersion::from_string(""), Err(ProtocolError::BadVersion)));
    // Extra components beyond the third are ignored.
    let v = EsVersion::from_string("8.11.1.2").unwrap();
    assert_eq!((v.major, v.minor, v.patch), (8, 11, 1));
}

#[test]
fn gate_rejects_below_minimum_and_accepts_at_and_above() {
    let low = EsVersion { major: 7, minor: 7, patch: 0 };
    let at = EsVersion { major: 7, minor: 8, patch: 0 };
    let above = EsVersion { major: 8, minor: 0, patch: 0 };
    assert_eq!(
        capability_path(Capability::ComponentTemplates, Some(low)),
        Err(UnsupportedError { min_major: 7, min_minor: 8 })
    );
    assert_eq!(
        capability_path(Capability::ComponentTemplates, Some(at)),
        Ok("/_component_template".to_string())
    );
    assert_eq!(
        capability_path(Capability::ComponentTemplates, Some(above)),
        Ok("/_component_template".to_string())
    );
}

#[test]
fn gate_picks_the_path_variant_per_version() {
    let old = EsVersion { major: 7, minor: 7, patch: 9 };
    let new = EsVersion { major: 7, minor: 8, patch: 0 };
    assert_eq!(
        capability_path(Capability::IndexTemplates, Some(old)),
        Ok("/_template".to_string())
    );
    assert_eq!(
        capability_path(Capability::IndexTemplates, Some(new)),
        Ok("/_index_template".to_string())
    );
    // Undetected, every minimum-gated capability assumes the modern path
    // rather than blocking.
    assert_eq!(
        capability_path(Capability::IndexTemplates, None),
        Ok("/_index_template".to_string())
    );
    assert_eq!(
        capability_path(Capability::ComponentTemplates, None),
        Ok("/_component_template".to_string())
    );
}

#[test]
fn sql_gate_requires_major_seven() {
    let six = EsVersion { major: 6, minor: 8, patch: 0 };
    let seven = EsVersion { major: 7, minor: 0, patch: 0 };
    assert!(capability_path(Capability::SqlSearch, Some(six)).is_err());
    assert_eq!(capability_path(Capability::SqlSearch, Some(seven)), Ok("/_sql".to_string()));
    assert_eq!(capability_path(Capability::SqlSearch, None), Ok("/_sql".to_string()));
}

#[test]
fn patch_level_never_gates_a_capability() {
    let high_patch = EsVersion { major: 7, minor: 7, patch: 99 };
    assert!(capability_path(Capability::ComponentTemplates, Some(high_patch)).is_err());
}

#[test]
fn client_construction_strips_trailing_slashes() {
    let client = EsClient::new("http://node:9200///".to_string(), false, None, None);
    assert_eq!(client.base_url(), "http://node:9200");
    assert!(client.version().is_none());
}

#[test]
fn request_urls_join_base_and_path() {
    let client = EsClient::new("http://node:9200/".to_string(), false, None, None);
    assert_eq!(client.request_url("/_cluster/health"), "http://node:9200/_cluster/health");
    assert_eq!(client.request_url("_cluster/health"), "http://node:9200/_cluster/health");
}

#[test]
fn basic_auth_needs_both_username_and_password() {
    let anonymous = EsClient::new("http://x".to_string(), false, None, None);
    assert!(!anonymous.use_basic_auth());
    let half = EsClient::new("http://x".to_string(), false, Some("u".to_string()), None);
    assert!(!half.use_basic_auth());
    let full = EsClient::new(
        "http://x".to_string(),
        false,
        Some("u".to_string()),
        Some("p".to_string()),
    );
    assert!(full.use_basic_auth());
}

#[test]
fn detected_version_is_cached_and_gates_without_requerying() {
    // The mock root endpoint's body, as the remote service would send it.
    let body = r#"{"version":{"number":"8.11.1"}}"#;
    let parsed: serde_json::Value = serde_json::from_str(body).unwrap();
    let number = parsed["version"]["number"].as_str().unwrap();

    let mut client = EsClient::new("http://node:9200".to_string(), false, None, None);
    let v = client.record_version_number(number).unwrap();
    assert_eq!((v.major, v.minor, v.patch), (8, 11, 1));

    // A later call gated on minimum 7.8 succeeds from the cached version
    // alone: nothing is parsed or fetched again.
    assert_eq!(client.component_templates_path(), Ok("/_component_template".to_string()));
    assert_eq!(client.index_templates_path(), "/_index_template");
    assert_eq!(client.version().map(|v| (v.major, v.minor, v.patch)), Some((8, 11, 1)));
}

#[test]
fn malformed_version_number_leaves_the_client_unversioned() {
    let mut client = EsClient::new("http://node:9200".to_string(), false, None, None);
    assert!(client.record_version_number("new-and-shiny").is_err());
    assert!(client.version().is_none());
}

#[test]
fn search_paths_name_the_indices() {
    assert_eq!(search_path(&vec![]), "/_search");
    assert_eq!(search_path(&vec!["logs".to_string()]), "/logs/_search");
    assert_eq!(
        search_path(&vec!["a".to_string(), "b".to_string()]),
        "/a,b/_search"
    );
}

#[test]
fn non_2xx_statuses_become_status_errors_with_the_body() {
    assert_eq!(response_to_result(200, "ok".to_string()).unwrap(), "ok");
    assert_eq!(response_to_result(299, "ok".to_string()).unwrap(), "ok");
    match response_to_result(404, "missing".to_string()).unwrap_err() {
        RemoteError::Status { code, body } => {
            assert_eq!(code, 404);
            assert_eq!(body, "missing");
        },
        RemoteError::Decode => panic!("expected a status error"),
    }
}
