//! Typed shapes of the remote service's API responses, as the generic verbs
//! deserialize them.  The wire decoding itself happens at the I/O boundary;
//! these are the plain carriers the rest of the code computes over.

use vstd::prelude::*;

verus! {

/// The cluster health document.
pub struct ClusterHealth {
    pub cluster_name: String,
    pub status: String,
    pub timed_out: bool,
    pub number_of_nodes: u32,
    pub number_of_data_nodes: u32,
    pub active_primary_shards: u32,
    pub active_shards: u32,
    pub relocating_shards: u32,
    pub initializing_shards: u32,
    pub unassigned_shards: u32,
}

/// The cluster stats document, reduced to what the console shows.
pub struct ClusterStats {
    pub cluster_name: String,
    pub nodes: NodesStats,
}

/// The node statistics of the cluster stats document.
pub struct NodesStats {
    pub count: NodesCount,
}

/// Node counts by role.
pub struct NodesCount {
    pub total: u32,
    pub data: u32,
    pub master: u32,
}

/// One node of the nodes listing.
pub struct NodeInfo {
    pub name: String,
    pub roles: Vec<String>,
    pub version: String,
}

/// One row of the indices listing, as the tabular endpoint reports it.
pub struct IndexInfo {
    pub health: String,
    pub status: String,
    pub index: String,
    pub uuid: String,
    pub pri: String,
    pub rep: String,
    pub docs_count: Option<String>,
    pub store_size: Option<String>,
}

} // verus!
