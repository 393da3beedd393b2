//! Data reported by the router's RPC services: system status, board
//! identification, wireless radios and their connected clients.
//!
//! These are plain values; the process that obtains them from the router is a
//! collaborator outside this crate. Radios and clients are kept as ordered
//! lists of `(name, data)` pairs, so that formatting them is deterministic.

use vstd::prelude::*;

verus! {

/// System status: uptime, load and memory, as the router reports them.
pub struct SystemInfo {
    pub localtime: u64,
    pub uptime: u64,
    pub load: [u32; 3],
    pub memory: MemoryInfo,
    pub root: StorageInfo,
    pub tmp: StorageInfo,
    pub swap: SwapInfo,
}

/// Memory counters in bytes.
pub struct MemoryInfo {
    pub total: u64,
    pub free: u64,
    pub shared: u64,
    pub buffered: u64,
    pub available: u64,
    pub cached: u64,
}

impl MemoryInfo {
    /// The counters a report must satisfy before memory use can be summarised:
    /// some memory exists, and no more is available than exists.
    pub open spec fn wf(&self) -> bool {
        &&& 0 < self.total
        &&& self.available <= self.total
    }
}

/// Storage counters in bytes.
pub struct StorageInfo {
    pub total: u64,
    pub free: u64,
    pub used: u64,
    pub avail: u64,
}

/// Swap counters in bytes.
pub struct SwapInfo {
    pub total: u64,
    pub free: u64,
}

/// Board identification.
pub struct BoardInfo {
    pub kernel: String,
    pub hostname: String,
    pub system: String,
    pub model: String,
    pub board_name: String,
    pub rootfs_type: String,
    pub release: ReleaseInfo,
}

/// Firmware release identification.
pub struct ReleaseInfo {
    pub distribution: String,
    pub version: String,
    pub revision: String,
    pub target: String,
    pub description: String,
    pub builddate: String,
}

/// System and board status together, as one report.
pub struct RouterStatus {
    pub system: SystemInfo,
    pub board: BoardInfo,
}

/// The wireless radios, each under its radio name, in report order.
pub struct WirelessStatus(pub Vec<(String, RadioInfo)>);

/// One radio: whether it runs, its configuration, and its logical interfaces.
pub struct RadioInfo {
    pub up: bool,
    pub disabled: bool,
    pub config: RadioConfig,
    pub interfaces: Vec<WifiInterface>,
}

/// A radio's configuration.
pub struct RadioConfig {
    pub band: String,
    pub channel: String,
    pub htmode: String,
}

/// One logical wireless interface on a radio.
pub struct WifiInterface {
    pub section: String,
    pub ifname: String,
    pub config: WifiInterfaceConfig,
    pub stations: Vec<String>,
}

/// A wireless interface's configuration.
pub struct WifiInterfaceConfig {
    pub ssid: String,
    pub encryption: String,
}

/// The clients connected to one interface, each under its hardware address,
/// in report order.
pub struct HostapdClients {
    pub freq: u32,
    pub clients: Vec<(String, WifiClient)>,
}

/// One connected client.
pub struct WifiClient {
    pub auth: bool,
    pub assoc: bool,
    pub authorized: bool,
    pub signal: i32,
    pub ht: bool,
    pub vht: bool,
    pub he: bool,
    pub bytes: ClientTraffic,
    pub rate: ClientRate,
}

/// Bytes transferred to and from a client.
pub struct ClientTraffic {
    pub rx: u64,
    pub tx: u64,
}

/// A client's negotiated rates, in bits per second.
pub struct ClientRate {
    pub rx: u64,
    pub tx: u64,
}

} // verus!
