//! What the probes hand over: one plain value per metric category. A probe that
//! failed hands over `None` in place of its reading.

use vstd::prelude::*;

verus! {

/// One address of a network interface.
pub enum IpAddress {
    /// The interface reported no address in this place.
    Empty,
    /// An address of a family other than IPv4 and IPv6.
    Unsupported,
    /// An IPv4 address, by its four octets.
    V4([u8; 4]),
    /// An IPv6 address, by its eight 16-bit segments.
    V6([u16; 8]),
}

/// A network interface with its addresses, in the order in which the host
/// reported them.
pub struct NetworkInterface {
    pub name: String,
    pub addrs: Vec<IpAddress>,
}

/// One line of the kernel's memory accounting: a counter's name and its size
/// in bytes.
pub struct MemInfoEntry {
    pub key: String,
    pub bytes: u64,
}

/// Memory totals in bytes, with the kernel's raw accounting lines.
pub struct MemoryReading {
    pub total: u64,
    pub free: u64,
    pub meminfo: Vec<MemInfoEntry>,
}

/// The aggregate CPU load. Each field holds the decimal text of a percentage,
/// the share of the settle period spent in that state times one hundred.
pub struct LoadReading {
    pub user: String,
    pub nice: String,
    pub system: String,
    pub interrupt: String,
    pub idle: String,
}

/// Time since boot: whole seconds and the nanoseconds beyond them.
pub struct UptimeReading {
    pub secs: u64,
    pub nanos: u32,
}

/// The instant of boot, in nanoseconds since the Unix epoch.
pub struct BootTimeReading {
    pub unix_nanos: i128,
}

/// The outcomes of one sampling cycle, one per probe. The temperature is the
/// decimal text of a reading in degrees Celsius.
pub struct Readings {
    pub networks: Option<Vec<NetworkInterface>>,
    pub memory: Option<MemoryReading>,
    pub load: Option<LoadReading>,
    pub uptime: Option<UptimeReading>,
    pub boot_time: Option<BootTimeReading>,
    pub temperature: Option<String>,
}

} // verus!
