//! The indices listing: its rows, its query parameters with their defaults,
//! the derived row values, and the bulk-operation routing.

use vstd::prelude::*;

use crate::client::HttpMethod;
use crate::format::{format_bytes, format_bytes_spec, format_number, group3, parse_size_spec, parse_size_to_bytes};
use crate::text::{dec_u64, parse_u64_or_zero, parse_u64_spec, str_equal};

verus! {

broadcast use vstd::string::group_string_axioms;

/// One row of the indices listing, with every numeric column carried as the
/// text the tabular endpoint sent.
pub struct IndexInfo {
    pub health: String,
    pub status: String,
    pub index: String,
    pub uuid: String,
    pub pri: String,
    pub rep: String,
    pub docs_count: String,
    pub docs_deleted: String,
    pub store_size: String,
    pub pri_store_size: String,
    pub aliases: Vec<String>,
}

/// An alias row of the alias listing.
pub struct AliasInfo {
    pub alias: String,
    pub index: String,
}

/// The value of an unsigned decimal text column, zero when unreadable.
pub open spec fn column_num(s: Seq<char>) -> u64 {
    match parse_u64_spec(s) {
        Some(v) => v,
        None => 0u64,
    }
}

impl IndexInfo {
    /// The document count as a number, for sorting; zero when unreadable.
    pub fn docs_count_num(&self) -> (r: u64)
        ensures
            r == column_num(self.docs_count@),
    {
        parse_u64_or_zero(self.docs_count.as_str())
    }

    /// The document count with its digits grouped for reading.
    pub fn docs_count_formatted(&self) -> (r: String)
        ensures
            r@ == group3(dec_u64(column_num(self.docs_count@) as int)),
    {
        format_number(self.docs_count_num())
    }

    /// The store size in bytes, for sorting.
    pub fn store_size_bytes(&self) -> (r: u64)
        ensures
            r as int == parse_size_spec(self.store_size@),
    {
        parse_size_to_bytes(self.store_size.as_str())
    }

    /// The store size re-rendered human-readably.
    pub fn store_size_formatted(&self) -> (r: String)
        ensures
            r@ == format_bytes_spec(parse_size_spec(self.store_size@)),
    {
        format_bytes(self.store_size_bytes())
    }
}

/// The listing's query parameters.
pub struct IndicesQuery {
    pub filter: String,
    pub page: usize,
    pub per_page: usize,
    pub sort_by: String,
    pub sort_order: String,
    pub hide_internal: bool,
}

/// Every index, unless a filter narrows the listing.
pub fn default_filter() -> (r: String)
    ensures
        r@ == "*"@,
{
    "*".to_owned()
}

/// The first page, where the listing starts.
pub fn default_page() -> (r: usize)
    ensures
        r == 1,
{
    1
}

/// How many rows a page shows unless asked otherwise.
pub fn default_per_page() -> (r: usize)
    ensures
        r == 50,
{
    50
}

/// The default sort column: the index name.
pub fn default_sort_by() -> (r: String)
    ensures
        r@ == "index"@,
{
    "index".to_owned()
}

/// Ascending, unless asked otherwise.
pub fn default_sort_order() -> (r: String)
    ensures
        r@ == "asc"@,
{
    "asc".to_owned()
}

/// Internal indices (the dot-prefixed ones) are hidden by default.
pub fn default_hide_internal() -> (r: bool)
    ensures
        r == true,
{
    true
}

/// The listing page's assembled data.
pub struct IndicesListData {
    pub indices: Vec<IndexInfo>,
    pub total: usize,
    pub page: usize,
    pub per_page: usize,
    pub total_pages: usize,
    pub filter: String,
    pub sort_by: String,
    pub sort_order: String,
    pub hide_internal: bool,
}

impl IndicesListData {
    /// The ordinal of the first row shown on this page.
    pub fn showing_from(&self) -> (r: usize)
        requires
            self.page >= 1,
            (self.page - 1) * self.per_page + 1 <= usize::MAX,
        ensures
            r == (self.page - 1) * self.per_page + 1,
    {
        (self.page - 1) * self.per_page + 1
    }

    /// The ordinal of the last row shown on this page, never past the total.
    pub fn showing_to(&self) -> (r: usize)
        requires
            self.page >= 1,
            (self.page - 1) * self.per_page + self.indices@.len() <= usize::MAX,
        ensures
            r == if (self.page - 1) * self.per_page + self.indices@.len() <= self.total {
                ((self.page - 1) * self.per_page + self.indices@.len()) as int
            } else {
                self.total as int
            },
    {
        let end = (self.page - 1) * self.per_page + self.indices.len();
        if end <= self.total {
            end
        } else {
            self.total
        }
    }
}

/// Everything the index detail view shows: the listing row's columns, the
/// raw settings/mappings/stats documents as text, and the numeric statistics
/// pulled out of them.
pub struct IndexDetail {
    pub index_name: String,
    pub health: String,
    pub status: String,
    pub uuid: String,
    pub pri: String,
    pub rep: String,
    pub docs_count: String,
    pub docs_deleted: String,
    pub store_size: String,
    pub pri_store_size: String,
    pub aliases: Vec<String>,
    pub settings: Option<String>,
    pub mappings: Option<String>,
    pub stats: Option<String>,
    pub stats_docs_count: Option<u64>,
    pub stats_docs_deleted: Option<u64>,
    pub stats_store_size_bytes: Option<u64>,
    pub stats_pri_store_size_bytes: Option<u64>,
    pub stats_segments_count: Option<u64>,
    pub stats_segments_memory_bytes: Option<u64>,
    pub stats_search_query_total: Option<u64>,
    pub stats_search_query_time_ms: Option<u64>,
    pub stats_indexing_total: Option<u64>,
    pub stats_indexing_time_ms: Option<u64>,
    pub stats_primary_store_ratio: Option<u8>,
    pub stats_deleted_ratio: Option<u8>,
    pub stats_segments_memory_ratio: Option<u8>,
}

/// An optional statistic, zero when the stats document did not carry it.
pub open spec fn stat_or_zero(v: Option<u64>) -> u64 {
    match v {
        Some(x) => x,
        None => 0u64,
    }
}

/// Exec twin of [`stat_or_zero`].
fn stat_value(v: &Option<u64>) -> (r: u64)
    ensures
        r == stat_or_zero(*v),
{
    match v {
        Some(x) => *x,
        None => 0,
    }
}

impl IndexDetail {
    pub fn docs_count_formatted(&self) -> (r: String)
        ensures
            r@ == group3(dec_u64(column_num(self.docs_count@) as int)),
    {
        format_number(parse_u64_or_zero(self.docs_count.as_str()))
    }

    pub fn docs_deleted_formatted(&self) -> (r: String)
        ensures
            r@ == group3(dec_u64(column_num(self.docs_deleted@) as int)),
    {
        format_number(parse_u64_or_zero(self.docs_deleted.as_str()))
    }

    pub fn store_size_formatted(&self) -> (r: String)
        ensures
            r@ == format_bytes_spec(parse_size_spec(self.store_size@)),
    {
        format_bytes(parse_size_to_bytes(self.store_size.as_str()))
    }

    pub fn pri_store_size_formatted(&self) -> (r: String)
        ensures
            r@ == format_bytes_spec(parse_size_spec(self.pri_store_size@)),
    {
        format_bytes(parse_size_to_bytes(self.pri_store_size.as_str()))
    }

    pub fn stats_docs_count_formatted(&self) -> (r: String)
        ensures
            r@ == group3(dec_u64(stat_or_zero(self.stats_docs_count) as int)),
    {
        format_number(stat_value(&self.stats_docs_count))
    }

    pub fn stats_docs_deleted_formatted(&self) -> (r: String)
        ensures
            r@ == group3(dec_u64(stat_or_zero(self.stats_docs_deleted) as int)),
    {
        format_number(stat_value(&self.stats_docs_deleted))
    }

    pub fn stats_store_size_formatted(&self) -> (r: String)
        ensures
            r@ == format_bytes_spec(stat_or_zero(self.stats_store_size_bytes) as int),
    {
        format_bytes(stat_value(&self.stats_store_size_bytes))
    }

    pub fn stats_pri_store_size_formatted(&self) -> (r: String)
        ensures
            r@ == format_bytes_spec(stat_or_zero(self.stats_pri_store_size_bytes) as int),
    {
        format_bytes(stat_value(&self.stats_pri_store_size_bytes))
    }

    pub fn stats_segments_memory_formatted(&self) -> (r: String)
        ensures
            r@ == format_bytes_spec(stat_or_zero(self.stats_segments_memory_bytes) as int),
    {
        format_bytes(stat_value(&self.stats_segments_memory_bytes))
    }

    pub fn stats_search_query_total_formatted(&self) -> (r: String)
        ensures
            r@ == group3(dec_u64(stat_or_zero(self.stats_search_query_total) as int)),
    {
        format_number(stat_value(&self.stats_search_query_total))
    }

    pub fn stats_indexing_total_formatted(&self) -> (r: String)
        ensures
            r@ == group3(dec_u64(stat_or_zero(self.stats_indexing_total) as int)),
    {
        format_number(stat_value(&self.stats_indexing_total))
    }

    pub fn stats_search_time_formatted(&self) -> (r: String)
        ensures
            r@ == group3(dec_u64(stat_or_zero(self.stats_search_query_time_ms) as int)) + " ms"@,
    {
        let mut out = format_number(stat_value(&self.stats_search_query_time_ms));
        out.append(" ms");
        out
    }

    pub fn stats_indexing_time_formatted(&self) -> (r: String)
        ensures
            r@ == group3(dec_u64(stat_or_zero(self.stats_indexing_time_ms) as int)) + " ms"@,
    {
        let mut out = format_number(stat_value(&self.stats_indexing_time_ms));
        out.append(" ms");
        out
    }
}

/// The outcome a bulk operation reports back.
pub struct BulkOperationResponse {
    pub success: bool,
    pub message: Option<String>,
    pub error: Option<String>,
}

/// Route a bulk action to its verb and path: delete closes over the index
/// itself, the rest post to the action's endpoint.  An unknown action is
/// refused.
pub fn bulk_action_route(action: &str, index_name: &str) -> (r: Option<(HttpMethod, String)>)
    ensures
        action@ == "delete"@ ==> (r matches Some(p) && p.0 == HttpMethod::Delete && p.1@ == "/"@
            + index_name@),
        action@ == "close"@ ==> (r matches Some(p) && p.0 == HttpMethod::Post && p.1@ == "/"@
            + index_name@ + "/_close"@),
        action@ == "open"@ ==> (r matches Some(p) && p.0 == HttpMethod::Post && p.1@ == "/"@
            + index_name@ + "/_open"@),
        action@ == "refresh"@ ==> (r matches Some(p) && p.0 == HttpMethod::Post && p.1@ == "/"@
            + index_name@ + "/_refresh"@),
        action@ != "delete"@ && action@ != "close"@ && action@ != "open"@ && action@ != "refresh"@
            ==> r is None,
{
    proof {
        reveal_strlit("delete");
        reveal_strlit("close");
        reveal_strlit("open");
        reveal_strlit("refresh");
        assert("delete"@.len() == 6);
        assert("close"@.len() == 5);
        assert("open"@.len() == 4);
        assert("refresh"@.len() == 7);
    }
    let mut path: String = "/".to_owned();
    path.append(index_name);
    if str_equal(action, "delete") {
        Some((HttpMethod::Delete, path))
    } else if str_equal(action, "close") {
        path.append("/_close");
        proof {
            assert(path@ =~= "/"@ + index_name@ + "/_close"@);
        }
        Some((HttpMethod::Post, path))
    } else if str_equal(action, "open") {
        path.append("/_open");
        proof {
            assert(path@ =~= "/"@ + index_name@ + "/_open"@);
        }
        Some((HttpMethod::Post, path))
    } else if str_equal(action, "refresh") {
        path.append("/_refresh");
        proof {
            assert(path@ =~= "/"@ + index_name@ + "/_refresh"@);
        }
        Some((HttpMethod::Post, path))
    } else {
        None
    }
}

} // verus!
