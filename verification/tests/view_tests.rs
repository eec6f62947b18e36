use elastic_explorer::color::{generate_index_color, shard_state_color};
use elastic_explorer::console::{console_history_entry, looks_like_json, parse_method};
use elastic_explorer::client::HttpMethod;
use elastic_explorer::dashboard::{DashboardData, NodeSummary};
use elastic_explorer::endpoints::{
    escape_attr, form_to_create, form_to_update, render_endpoints_list, CreateEndpointForm,
};
use elastic_explorer::indices::{
    bulk_action_route, default_filter, default_hide_internal, default_page, default_per_page,
    default_sort_by, default_sort_order, IndexDetail, IndexInfo, IndicesListData,
};
use elastic_explorer::node::NodeDetail;
use elastic_explorer::shards::{matches_pattern, shard_stats, ShardInfo};
use elastic_explorer::vault::Endpoint;

fn shard(index: &str, prirep: &str, state: &str, node: &str) -> ShardInfo {
    ShardInfo {
        index: index.to_string(),
        shard: "0".to_string(),
        prirep: prirep.to_string(),
        state: state.to_string(),
        docs: "0".to_string(),
        store: "0b".to_string(),
        node: node.to_string(),
        unassigned_reason: None,
    }
}

#[test]
fn index_colors_are_stable_and_well_formed() {
    let a = generate_index_color("logs-2024");
    let b = generate_index_color("logs-2024");
    assert_eq!(a, b);
    assert!(a.starts_with("hsl("));
    assert!(a.ends_with(", 70%, 40%)"));
    let hue: u64 = a["hsl(".len()..a.len() - ", 70%, 40%)".len()].parse().unwrap();
    assert!(hue < 360);
    // Different names land on different hues often enough that the hash
    // cannot be the identity on its argument.
    let names = ["a", "b", "c", "d", "e", "f", "g", "h"];
    let distinct: std::collections::HashSet<String> =
        names.iter().map(|n| generate_index_color(n)).collect();
    assert!(distinct.len() > 1);
}

#[test]
fn shard_state_colors_follow_the_palette() {
    assert_eq!(shard_state_color("STARTED"), "#2fb344");
    assert_eq!(shard_state_color("RELOCATING"), "#f59f00");
    assert_eq!(shard_state_color("INITIALIZING"), "#206bc4");
    assert_eq!(shard_state_color("UNASSIGNED"), "#d63939");
    assert_eq!(shard_state_color("anything else"), "#626976");
}

#[test]
fn wildcard_patterns_filter_index_names() {
    assert!(matches_pattern("audit-2024", "*audit*"));
    assert!(matches_pattern("prod-audit-2024", "*audit*"));
    assert!(!matches_pattern("logs-2024", "*audit*"));
    assert!(matches_pattern("logs-2024", "logs-*"));
    assert!(!matches_pattern("audit-logs", "logs-*"));
    assert!(matches_pattern("logs-2024", "*-2024"));
    assert!(!matches_pattern("logs-2023", "*-2024"));
    assert!(matches_pattern("a-b-c", "a*b*c"));
    assert!(matches_pattern("anything", "*"));
}

#[test]
fn shard_statistics_count_by_kind_and_state() {
    let shards = vec![
        shard("a", "p", "STARTED", "n1"),
        shard("a", "r", "STARTED", "n2"),
        shard("b", "p", "RELOCATING", "n1"),
        shard("b", "r", "UNASSIGNED", "UNASSIGNED"),
        shard("c", "p", "INITIALIZING", "n2"),
    ];
    let stats = shard_stats(&shards);
    assert_eq!(stats.total, 5);
    assert_eq!(stats.primary, 3);
    assert_eq!(stats.replica, 2);
    assert_eq!(stats.started, 2);
    assert_eq!(stats.relocating, 1);
    assert_eq!(stats.unassigned, 1);
}

#[test]
fn methods_parse_case_insensitively_with_head_as_get() {
    assert_eq!(parse_method("get"), Some(HttpMethod::Get));
    assert_eq!(parse_method("GET"), Some(HttpMethod::Get));
    assert_eq!(parse_method("Head"), Some(HttpMethod::Get));
    assert_eq!(parse_method("post"), Some(HttpMethod::Post));
    assert_eq!(parse_method("Put"), Some(HttpMethod::Put));
    assert_eq!(parse_method("DELETE"), Some(HttpMethod::Delete));
    assert_eq!(parse_method("PATCH"), None);
}

#[test]
fn json_bodies_are_recognized_by_their_first_character() {
    assert!(looks_like_json("{\"a\": 1}"));
    assert!(looks_like_json("  [1, 2]"));
    assert!(!looks_like_json("plain text"));
    assert!(!looks_like_json(""));
}

#[test]
fn history_entries_record_the_request_and_response() {
    let entry = console_history_entry(
        7,
        "GET".to_string(),
        "/_cat/indices".to_string(),
        "".to_string(),
        200,
        "ok".to_string(),
    );
    assert_eq!(entry.endpoint_id, 7);
    assert_eq!(entry.body, None);
    assert_eq!(entry.response_status, Some(200));
    assert_eq!(entry.response_body, Some("ok".to_string()));
    let with_body = console_history_entry(
        7,
        "POST".to_string(),
        "/_search".to_string(),
        "{}".to_string(),
        200,
        "ok".to_string(),
    );
    assert_eq!(with_body.body, Some("{}".to_string()));
}

#[test]
fn bulk_actions_route_to_their_verbs() {
    assert_eq!(
        bulk_action_route("delete", "logs"),
        Some((HttpMethod::Delete, "/logs".to_string()))
    );
    assert_eq!(
        bulk_action_route("close", "logs"),
        Some((HttpMethod::Post, "/logs/_close".to_string()))
    );
    assert_eq!(
        bulk_action_route("open", "logs"),
        Some((HttpMethod::Post, "/logs/_open".to_string()))
    );
    assert_eq!(
        bulk_action_route("refresh", "logs"),
        Some((HttpMethod::Post, "/logs/_refresh".to_string()))
    );
    assert_eq!(bulk_action_route("explode", "logs"), None);
}

#[test]
fn listing_defaults_match_the_page() {
    assert_eq!(default_filter(), "*");
    assert_eq!(default_page(), 1);
    assert_eq!(default_per_page(), 50);
    assert_eq!(default_sort_by(), "index");
    assert_eq!(default_sort_order(), "asc");
    assert!(default_hide_internal());
    assert_eq!(elastic_explorer::search::default_page(), 1);
    assert_eq!(elastic_explorer::search::default_per_page(), 20);
}

fn sample_row() -> IndexInfo {
    IndexInfo {
        health: "green".to_string(),
        status: "open".to_string(),
        index: "logs".to_string(),
        uuid: "u".to_string(),
        pri: "1".to_string(),
        rep: "1".to_string(),
        docs_count: "1234567".to_string(),
        docs_deleted: "0".to_string(),
        store_size: "1.5mb".to_string(),
        pri_store_size: "1mb".to_string(),
        aliases: vec![],
    }
}

#[test]
fn index_rows_derive_their_numbers_and_text() {
    let row = sample_row();
    assert_eq!(row.docs_count_num(), 1234567);
    assert_eq!(row.docs_count_formatted(), "1 234 567");
    assert_eq!(row.store_size_bytes(), 1572864);
    assert_eq!(row.store_size_formatted(), "1.50 MB");
}

#[test]
fn unreadable_columns_count_zero() {
    let mut row = sample_row();
    row.docs_count = "-".to_string();
    row.store_size = "-".to_string();
    assert_eq!(row.docs_count_num(), 0);
    assert_eq!(row.store_size_bytes(), 0);
}

#[test]
fn pagination_window_is_clamped_to_the_total() {
    let data = IndicesListData {
        indices: vec![sample_row(), sample_row()],
        total: 12,
        page: 2,
        per_page: 10,
        total_pages: 2,
        filter: "*".to_string(),
        sort_by: "index".to_string(),
        sort_order: "asc".to_string(),
        hide_internal: true,
    };
    assert_eq!(data.showing_from(), 11);
    assert_eq!(data.showing_to(), 12);
}

#[test]
fn index_detail_formats_its_statistics() {
    let detail = IndexDetail {
        index_name: "logs".to_string(),
        health: "green".to_string(),
        status: "open".to_string(),
        uuid: "u".to_string(),
        pri: "1".to_string(),
        rep: "1".to_string(),
        docs_count: "1234".to_string(),
        docs_deleted: "5".to_string(),
        store_size: "2gb".to_string(),
        pri_store_size: "1gb".to_string(),
        aliases: vec![],
        settings: None,
        mappings: None,
        stats: None,
        stats_docs_count: Some(7654321),
        stats_docs_deleted: None,
        stats_store_size_bytes: Some(1536),
        stats_pri_store_size_bytes: None,
        stats_segments_count: None,
        stats_segments_memory_bytes: None,
        stats_search_query_total: Some(42),
        stats_search_query_time_ms: Some(1500),
        stats_indexing_total: None,
        stats_indexing_time_ms: None,
        stats_primary_store_ratio: None,
        stats_deleted_ratio: None,
        stats_segments_memory_ratio: None,
    };
    assert_eq!(detail.docs_count_formatted(), "1 234");
    assert_eq!(detail.docs_deleted_formatted(), "5");
    assert_eq!(detail.store_size_formatted(), "2.00 GB");
    assert_eq!(detail.stats_docs_count_formatted(), "7 654 321");
    assert_eq!(detail.stats_docs_deleted_formatted(), "0");
    assert_eq!(detail.stats_store_size_formatted(), "1.50 KB");
    assert_eq!(detail.stats_search_query_total_formatted(), "42");
    assert_eq!(detail.stats_search_time_formatted(), "1 500 ms");
    assert_eq!(detail.stats_indexing_time_formatted(), "0 ms");
}

#[test]
fn node_detail_formats_bytes_with_fixed_decimals() {
    assert_eq!(NodeDetail::format_bytes(512), "512 B");
    assert_eq!(NodeDetail::format_bytes(1536), "1.50 KB");
    assert_eq!(NodeDetail::format_bytes(1073741824), "1.00 GB");
}

#[test]
fn dashboard_formats_its_document_count() {
    let data = DashboardData {
        cluster_name: "c".to_string(),
        cluster_status: "green".to_string(),
        nodes_total: 3,
        nodes_data: 2,
        indices_count: 10,
        documents_count: 9876543,
        store_size: "1gb".to_string(),
        nodes: vec![NodeSummary {
            id: "n".to_string(),
            name: "node".to_string(),
            roles: vec![],
            is_master: true,
            cpu_percent: None,
            heap_percent: None,
            ram_percent: None,
            disk_used_percent: None,
        }],
    };
    assert_eq!(data.documents_count_formatted(), "9 876 543");
}

#[test]
fn escape_attr_escapes_markup_characters() {
    assert_eq!(escape_attr("a&b\"c<d>e"), "a&amp;b&quot;c&lt;d&gt;e");
    assert_eq!(escape_attr("plain"), "plain");
}

#[test]
fn forms_normalize_empty_optionals_to_absent() {
    let form = CreateEndpointForm {
        name: "n".to_string(),
        url: "http://x".to_string(),
        insecure: Some("on".to_string()),
        username: Some("".to_string()),
        password: Some("p".to_string()),
    };
    let create = form_to_create(form);
    assert!(create.insecure);
    assert_eq!(create.username, None);
    assert_eq!(create.password, Some("p".to_string()));

    let form = elastic_explorer::endpoints::UpdateEndpointForm {
        name: "n".to_string(),
        url: "http://x".to_string(),
        insecure: None,
        username: Some("u".to_string()),
        password: None,
    };
    let update = form_to_update(form);
    assert_eq!(update.insecure, Some(false));
    assert_eq!(update.username, Some("u".to_string()));
    assert_eq!(update.password, None);
}

#[test]
fn rendered_endpoint_list_marks_the_active_endpoint() {
    let endpoints = vec![
        Endpoint {
            id: 1,
            name: "alpha".to_string(),
            url: "http://a:9200".to_string(),
            insecure: false,
            username: None,
            password_encrypted: None,
            created_at: String::new(),
            updated_at: String::new(),
        },
        Endpoint {
            id: 2,
            name: "beta <&>".to_string(),
            url: "http://b:9200".to_string(),
            insecure: true,
            username: Some("admin".to_string()),
            password_encrypted: None,
            created_at: String::new(),
            updated_at: String::new(),
        },
    ];
    let html = render_endpoints_list(&endpoints, Some(2));
    assert!(html.starts_with("<div class=\"list-group list-group-flush\">"));
    assert!(html.contains("alpha"));
    assert!(html.contains("Active"));
    assert!(html.contains("Insecure"));
    assert!(html.contains("data-endpoint-name=\"beta &lt;&amp;&gt;\""));
    assert!(html.contains("admin"));
    // Exactly one active badge: it sits on endpoint 2, not endpoint 1.
    assert_eq!(html.matches("bg-green-lt").count(), 1);

    let empty = render_endpoints_list(&vec![], None);
    assert!(empty.contains("empty-title"));
}

#[test]
fn grouping_collects_each_node_exactly_once() {
    let shards = vec![
        shard("a", "p", "STARTED", "n1"),
        shard("b", "p", "STARTED", "n2"),
        shard("c", "p", "STARTED", "n1"),
        shard("d", "r", "STARTED", "n3"),
    ];
    let groups = elastic_explorer::shards::group_by_node(&shards);
    assert_eq!(groups.len(), 3);
    let names: Vec<&str> = groups.iter().map(|g| g.node_name.as_str()).collect();
    assert_eq!(names, vec!["n1", "n2", "n3"]);
    let n1 = &groups[0];
    assert_eq!(n1.shards.len(), 2);
    assert_eq!(n1.shards[0].index, "a");
    assert_eq!(n1.shards[1].index, "c");
    assert_eq!(groups[1].shards.len(), 1);
    assert_eq!(groups[2].shards.len(), 1);
}
