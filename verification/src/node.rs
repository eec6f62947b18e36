//! One node's detail view and metrics.

use vstd::prelude::*;

use crate::format::{format_bytes_fixed2, format_bytes_fixed2_spec};

verus! {

/// Everything the node detail page shows.
pub struct NodeDetail {
    pub id: String,
    pub name: String,
    pub roles: Vec<String>,
    pub ip: String,
    pub version: String,
    pub os_name: String,
    pub os_arch: String,
    pub jvm_version: String,
    pub cpu_percent: Option<u8>,
    pub heap_percent: Option<u8>,
    pub heap_used_bytes: u64,
    pub heap_max_bytes: u64,
    pub ram_percent: Option<u8>,
    pub ram_used_bytes: u64,
    pub ram_total_bytes: u64,
    pub disk_percent: Option<u8>,
    pub disk_used_bytes: u64,
    pub disk_total_bytes: u64,
    pub docs_count: u64,
    pub docs_deleted: u64,
    pub store_size_bytes: u64,
}

/// The live metrics the node page refreshes.
pub struct NodeMetrics {
    pub cpu_percent: Option<u8>,
    pub heap_percent: Option<u8>,
    pub ram_percent: Option<u8>,
    pub disk_percent: Option<u8>,
}

impl NodeDetail {
    /// A byte count with fixed two decimals, up to terabytes.
    pub fn format_bytes(bytes: u64) -> (r: String)
        ensures
            r@ == format_bytes_fixed2_spec(bytes as int),
    {
        format_bytes_fixed2(bytes)
    }

    pub fn heap_used_formatted(&self) -> (r: String)
        ensures
            r@ == format_bytes_fixed2_spec(self.heap_used_bytes as int),
    {
        Self::format_bytes(self.heap_used_bytes)
    }

    pub fn heap_max_formatted(&self) -> (r: String)
        ensures
            r@ == format_bytes_fixed2_spec(self.heap_max_bytes as int),
    {
        Self::format_bytes(self.heap_max_bytes)
    }

    pub fn ram_used_formatted(&self) -> (r: String)
        ensures
            r@ == format_bytes_fixed2_spec(self.ram_used_bytes as int),
    {
        Self::format_bytes(self.ram_used_bytes)
    }

    pub fn ram_total_formatted(&self) -> (r: String)
        ensures
            r@ == format_bytes_fixed2_spec(self.ram_total_bytes as int),
    {
        Self::format_bytes(self.ram_total_bytes)
    }

    pub fn disk_used_formatted(&self) -> (r: String)
        ensures
            r@ == format_bytes_fixed2_spec(self.disk_used_bytes as int),
    {
        Self::format_bytes(self.disk_used_bytes)
    }

    pub fn disk_total_formatted(&self) -> (r: String)
        ensures
            r@ == format_bytes_fixed2_spec(self.disk_total_bytes as int),
    {
        Self::format_bytes(self.disk_total_bytes)
    }

    pub fn store_size_formatted(&self) -> (r: String)
        ensures
            r@ == format_bytes_fixed2_spec(self.store_size_bytes as int),
    {
        Self::format_bytes(self.store_size_bytes)
    }
}

} // verus!
