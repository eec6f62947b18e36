//! The dashboard's view data.

use vstd::prelude::*;

use crate::format::{format_number, group3};
use crate::text::dec_u64;

verus! {

/// What the dashboard shows of the active cluster.
pub struct DashboardData {
    pub cluster_name: String,
    pub cluster_status: String,
    pub nodes_total: u32,
    pub nodes_data: u32,
    pub indices_count: u32,
    pub documents_count: u64,
    pub store_size: String,
    pub nodes: Vec<NodeSummary>,
}

/// One node's summary row on the dashboard.
pub struct NodeSummary {
    pub id: String,
    pub name: String,
    pub roles: Vec<String>,
    pub is_master: bool,
    pub cpu_percent: Option<u8>,
    pub heap_percent: Option<u8>,
    pub ram_percent: Option<u8>,
    pub disk_used_percent: Option<u8>,
}

impl DashboardData {
    /// The document count with its digits grouped for reading.
    pub fn documents_count_formatted(&self) -> (r: String)
        ensures
            r@ == group3(dec_u64(self.documents_count as int)),
    {
        format_number(self.documents_count)
    }
}

} // verus!
