//! The search page's request shapes.

use vstd::prelude::*;

verus! {

/// The search form's query parameters.
pub struct SearchQuery {
    pub index_pattern: String,
    pub query: String,
    pub page: usize,
    pub per_page: usize,
}

/// The first page, where a search starts.
pub fn default_page() -> (r: usize)
    ensures
        r == 1,
{
    1
}

/// How many hits a page shows unless asked otherwise.
pub fn default_per_page() -> (r: usize)
    ensures
        r == 20,
{
    20
}

/// A bulk deletion request: documents to remove, each named by index and id.
pub struct BulkDeleteRequest {
    pub documents: Vec<DocumentIdentifier>,
}

/// One document to delete.
pub struct DocumentIdentifier {
    pub index: String,
    pub id: String,
}

/// The outcome a bulk operation reports back.
pub struct BulkOperationResponse {
    pub success: bool,
    pub message: Option<String>,
    pub error: Option<String>,
}

} // verus!
