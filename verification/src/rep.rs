//! Representations of the JSON structures that decoded records carry.
//!
//! A record the line decoder yields for `/stats` deserializes into
//! [`Stats`]-shaped data, one for `/events` into an [`Event`]; the other
//! types fill their fields. The fields are plain values; nothing here does
//! I/O or parsing.

use vstd::prelude::*;

use std::collections::HashMap;

verus! {

/// One container, as a container listing reports it.
#[derive(Clone, Debug)]
#[allow(non_snake_case)]
pub struct Container {
    pub Created: u64,
    pub Command: String,
    pub Id: String,
    pub Image: String,
    pub Labels: HashMap<String, String>,
    pub Names: Vec<String>,
    pub Ports: Vec<Port>,
    pub Status: String,
    pub SizeRw: Option<u64>,
    pub SizeRootFs: Option<u64>,
}

/// One record of the `/stats` stream.
#[derive(Clone, Debug)]
pub struct Stats {
    pub read: String,
    pub networks: HashMap<String, Network>,
    pub memory_stats: MemoryStats,
    pub blkio_stats: BlkioStats,
    pub cpu_stats: CpuStats,
}

/// Traffic counters of one network interface.
#[derive(Clone, Debug, PartialEq)]
pub struct Network {
    pub rx_dropped: u64,
    pub rx_bytes: u64,
    pub rx_errors: u64,
    pub tx_packets: u64,
    pub tx_dropped: u64,
    pub rx_packets: u64,
    pub tx_errors: u64,
    pub tx_bytes: u64,
}

/// One published port of a container.
#[derive(Clone, Debug, PartialEq)]
#[allow(non_snake_case)]
pub struct Port {
    pub IP: Option<String>,
    pub PrivatePort: u64,
    pub PublicPort: Option<u64>,
    pub Type: String,
}

/// Memory statistics of a running container.
#[derive(Clone, Debug, PartialEq)]
pub struct MemoryStats {
    pub max_usage: u64,
    pub usage: u64,
    pub failcnt: Option<u64>,
    pub limit: u64,
    pub stats: MemoryStat,
}

/// The detailed memory counters inside [`MemoryStats`].
#[derive(Clone, Debug, PartialEq)]
pub struct MemoryStat {
    pub total_pgmajfault: u64,
    pub cache: u64,
    pub mapped_file: u64,
    pub total_inactive_file: u64,
    pub pgpgout: u64,
    pub rss: u64,
    pub total_mapped_file: u64,
    pub writeback: u64,
    pub unevictable: u64,
    pub pgpgin: u64,
    pub total_unevictable: u64,
    pub pgmajfault: u64,
    pub total_rss: u64,
    pub total_rss_huge: u64,
    pub total_writeback: u64,
    pub total_inactive_anon: u64,
    pub rss_huge: u64,
    pub hierarchical_memory_limit: u64,
    pub hierarchical_memsw_limit: u64,
    pub total_pgfault: u64,
    pub total_active_file: u64,
    pub active_anon: u64,
    pub total_active_anon: u64,
    pub total_pgpgout: u64,
    pub total_cache: u64,
    pub inactive_anon: u64,
    pub active_file: u64,
    pub pgfault: u64,
    pub inactive_file: u64,
    pub total_pgpgin: u64,
    pub swap: Option<u64>,
    pub total_swap: Option<u64>,
}

/// Processor statistics of a running container.
#[derive(Clone, Debug, PartialEq)]
pub struct CpuStats {
    pub cpu_usage: CpuUsage,
    pub system_cpu_usage: u64,
    pub throttling_data: ThrottlingData,
}

/// The usage counters inside [`CpuStats`].
#[derive(Clone, Debug, PartialEq)]
pub struct CpuUsage {
    pub percpu_usage: Vec<u64>,
    pub usage_in_usermode: u64,
    pub total_usage: u64,
    pub usage_in_kernelmode: u64,
}

/// The throttling counters inside [`CpuStats`].
#[derive(Clone, Debug, PartialEq)]
pub struct ThrottlingData {
    pub periods: u64,
    pub throttled_periods: u64,
    pub throttled_time: u64,
}

/// Block-device statistics of a running container.
#[derive(Clone, Debug, PartialEq)]
pub struct BlkioStats {
    pub io_service_bytes_recursive: Vec<BlkioStat>,
    pub io_serviced_recursive: Vec<BlkioStat>,
    pub io_queue_recursive: Vec<BlkioStat>,
    pub io_service_time_recursive: Vec<BlkioStat>,
    pub io_wait_time_recursive: Vec<BlkioStat>,
    pub io_merged_recursive: Vec<BlkioStat>,
    pub io_time_recursive: Vec<BlkioStat>,
    pub sectors_recursive: Vec<BlkioStat>,
}

/// One block-device counter.
#[derive(Clone, Debug, PartialEq)]
pub struct BlkioStat {
    pub major: u64,
    pub minor: u64,
    pub op: String,
    pub value: u64,
}

/// One record of the `/events` stream.
#[derive(Clone, Debug, PartialEq)]
#[allow(non_snake_case)]
pub struct Event {
    pub status: Option<String>,
    pub id: Option<String>,
    pub from: Option<String>,
    pub time: u64,
    pub timeNano: u64,
}

/// One step of an image deletion: a tag removed, or a layer deleted.
#[derive(Clone, Debug, PartialEq)]
pub enum Status {
    Untagged(String),
    Deleted(String),
}

/// What the archive endpoint reports of one path inside a container.
#[derive(Clone, Debug, PartialEq)]
pub struct ContainerPathStat {
    pub name: String,
    pub size: u64,
    pub mode: u32,
    pub is_dir: bool,
    pub mtime: String,
    pub link_target: String,
}

/// The permission bits of a mode word.
pub const MODE_PERMISSIONS: u32 = 0o777;

/// The bit with which the archive endpoint flags a directory.
pub const MODE_DIR_BIT: u32 = 0x8000_0000;

impl ContainerPathStat {
    /// Folds the raw mode word into the plain fields: the directory bit
    /// becomes `is_dir`, and `mode` keeps only the permission bits. The
    /// other fields stay unchanged.
    pub fn normalize_mode(&mut self)
        ensures
            *final(self) == (ContainerPathStat {
                is_dir: old(self).mode & MODE_DIR_BIT == MODE_DIR_BIT,
                mode: old(self).mode & MODE_PERMISSIONS,
                ..*old(self)
            }),
            final(self).mode <= MODE_PERMISSIONS,
    {
        self.is_dir = self.mode & MODE_DIR_BIT == MODE_DIR_BIT;
        let ghost m = self.mode;
        self.mode = self.mode & MODE_PERMISSIONS;
        proof {
            assert(m & 0o777u32 <= 0o777u32) by (bit_vector);
        }
    }
}

} // verus!
