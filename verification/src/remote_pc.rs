//! The snapshot of one machine: assembled from the readings of one cycle, with
//! a sentinel in each field whose probe failed, and rendered as a fixed report.

use vstd::prelude::*;
use vstd::string::*;
use crate::reading::{
    BootTimeReading, IpAddress, LoadReading, MemInfoEntry, MemoryReading, NetworkInterface,
    Readings, UptimeReading,
};
use crate::render::{
    byte_size_display, byte_size_text, date_time_display, date_time_text, duration_debug,
    duration_text, ipv4_display, ipv4_text, ipv6_display, ipv6_text, used_bytes, used_of,
};
use crate::text::{array_to_string_print, block_text, sentinel, sentinel_text, texts_of};

verus! {

/// The IPv4 place of an interface's address text: the address there if it is
/// an IPv4 address, the sentinel otherwise.
pub open spec fn ipv4_place_text(addr: Option<IpAddress>) -> Seq<char> {
    match addr {
        Some(IpAddress::V4(octets)) => ipv4_display(octets[0], octets[1], octets[2], octets[3]),
        _ => sentinel_text(),
    }
}

/// The IPv6 place of an interface's address text: the address there if it is
/// an IPv6 address, the sentinel otherwise.
pub open spec fn ipv6_place_text(addr: Option<IpAddress>) -> Seq<char> {
    match addr {
        Some(IpAddress::V6(segments)) => ipv6_display(segments@),
        _ => sentinel_text(),
    }
}

/// The address text of an interface. The first address is taken for the IPv4
/// place and the second for the IPv6 place; an interface without addresses has
/// the sentinel alone.
pub open spec fn ip_text(addrs: Seq<IpAddress>) -> Seq<char> {
    if addrs.len() == 0 {
        sentinel_text()
    } else {
        "IPv4 : "@ + ipv4_place_text(Some(addrs[0])) + ", IPv6 : "@ + ipv6_place_text(
            if addrs.len() > 1 {
                Some(addrs[1])
            } else {
                None
            },
        )
    }
}

/// The line of one interface: its name, then its address text.
pub open spec fn interface_text(interface: NetworkInterface) -> Seq<char> {
    interface.name@ + " : "@ + ip_text(interface.addrs@)
}

/// The lines of a list of interfaces, in the order of the list.
pub open spec fn interface_lines(interfaces: Seq<NetworkInterface>) -> Seq<Seq<char>> {
    Seq::new(interfaces.len(), |i: int| interface_text(interfaces[i]))
}

/// The network field: the block of interface lines, or the sentinel where the
/// interfaces could not be enumerated.
pub open spec fn network_text(networks: Option<Vec<NetworkInterface>>) -> Seq<char> {
    match networks {
        Some(interfaces) => block_text(interface_lines(interfaces@)),
        None => sentinel_text(),
    }
}

/// Renders the addresses of one interface.
pub fn get_ip_as_string(address: &Vec<IpAddress>) -> (text: String)
    ensures
        text@ == ip_text(address@),
{
    if address.len() == 0 {
        return sentinel();
    }
    let ip_v4 = match &address[0] {
        IpAddress::V4(octets) => ipv4_text(octets[0], octets[1], octets[2], octets[3]),
        _ => sentinel(),
    };
    let ip_v6 = if address.len() > 1 {
        match &address[1] {
            IpAddress::V6(segments) => ipv6_text(segments),
            _ => sentinel(),
        }
    } else {
        sentinel()
    };
    let mut text: String = "IPv4 : ".to_owned();
    text.append(ip_v4.as_str());
    text.append(", IPv6 : ");
    text.append(ip_v6.as_str());
    text
}

/// Renders the network field from the outcome of the interface enumeration.
pub fn network_report(networks: &Option<Vec<NetworkInterface>>) -> (text: String)
    ensures
        text@ == network_text(*networks),
{
    match networks {
        None => sentinel(),
        Some(interfaces) => {
            let mut lines: Vec<String> = Vec::new();
            let mut i: usize = 0;
            while i < interfaces.len()
                invariant
                    i <= interfaces.len(),
                    lines@.len() == i,
                    forall|k: int|
                        0 <= k < i ==> (#[trigger] lines@[k])@ == interface_text(interfaces@[k]),
                decreases interfaces.len() - i,
            {
                let ip_details = get_ip_as_string(&interfaces[i].addrs);
                let mut line: String = interfaces[i].name.clone();
                line.append(" : ");
                line.append(ip_details.as_str());
                lines.push(line);
                i = i + 1;
            }
            proof {
                assert(texts_of(lines@) =~= interface_lines(interfaces@));
            }
            array_to_string_print(lines)
        },
    }
}

/// The size that the accounting lines from `from` on give for `key`: that of
/// the first such line with this name.
pub open spec fn meminfo_from(entries: Seq<MemInfoEntry>, key: Seq<char>, from: int) -> Option<u64>
    decreases entries.len() - from,
{
    if from < 0 || from >= entries.len() {
        None
    } else if entries[from].key@ == key {
        Some(entries[from].bytes)
    } else {
        meminfo_from(entries, key, from + 1)
    }
}

/// The size that the accounting lines give for `key`, if any line has this name.
pub open spec fn meminfo_value(entries: Seq<MemInfoEntry>, key: Seq<char>) -> Option<u64> {
    meminfo_from(entries, key, 0)
}

/// The four lines of the memory block, in their fixed order.
pub open spec fn memory_lines(total: u64, used: u64, active: u64, active_anon: u64, cached: u64) -> Seq<
    Seq<char>,
> {
    seq![
        " Ram : "@ + byte_size_display(used) + " used / "@ + byte_size_display(total),
        " Active : "@ + byte_size_display(active),
        " Active(anon) : "@ + byte_size_display(active_anon),
        " Cached : "@ + byte_size_display(cached),
    ]
}

/// The memory field: the block of memory lines, or the sentinel where the probe
/// failed or one of the three accounting counters is missing.
pub open spec fn memory_text(memory: Option<MemoryReading>) -> Seq<char> {
    match memory {
        Some(reading) => match (
            meminfo_value(reading.meminfo@, "Active"@),
            meminfo_value(reading.meminfo@, "Active(anon)"@),
            meminfo_value(reading.meminfo@, "Cached"@),
        ) {
            (Some(active), Some(active_anon), Some(cached)) => block_text(
                memory_lines(
                    reading.total,
                    used_of(reading.total, reading.free),
                    active,
                    active_anon,
                    cached,
                ),
            ),
            _ => sentinel_text(),
        },
        None => sentinel_text(),
    }
}

/// The load field: the five percentages with their labels, or the sentinel.
pub open spec fn load_text(load: Option<LoadReading>) -> Seq<char> {
    match load {
        Some(reading) => reading.user@ + "% user, "@ + reading.nice@ + "% nice, "@
            + reading.system@ + "% system, "@ + reading.interrupt@ + "% intr, "@ + reading.idle@
            + "% idle "@,
        None => sentinel_text(),
    }
}

/// The uptime field: the duration, or the sentinel where the probe failed or
/// the reading holds a second or more in its nanoseconds.
pub open spec fn uptime_text(uptime: Option<UptimeReading>) -> Seq<char> {
    match uptime {
        Some(reading) => if reading.nanos < 1_000_000_000 {
            duration_debug(reading.secs, reading.nanos)
        } else {
            sentinel_text()
        },
        None => sentinel_text(),
    }
}

/// The boot time field: the instant, or the sentinel where the probe failed or
/// the instant lies outside the calendar.
pub open spec fn boot_time_text(boot_time: Option<BootTimeReading>) -> Seq<char> {
    match boot_time {
        Some(reading) => match date_time_display(reading.unix_nanos) {
            Some(text) => text,
            None => sentinel_text(),
        },
        None => sentinel_text(),
    }
}

/// The temperature field: the reading's text, or the text of minus one, which
/// is the sentinel of this numeric field.
pub open spec fn temperature_text(temperature: Option<String>) -> Seq<char> {
    match temperature {
        Some(text) => text@,
        None => sentinel_text(),
    }
}

/// Looks a counter up among the accounting lines.
pub fn find_meminfo(entries: &Vec<MemInfoEntry>, key: &str) -> (found: Option<u64>)
    ensures
        found == meminfo_value(entries@, key@),
{
    let wanted: String = key.to_owned();
    let mut i: usize = 0;
    while i < entries.len()
        invariant
            i <= entries.len(),
            wanted@ == key@,
            meminfo_value(entries@, key@) == meminfo_from(entries@, key@, i as int),
        decreases entries.len() - i,
    {
        if entries[i].key == wanted {
            return Some(entries[i].bytes);
        }
        i = i + 1;
    }
    None
}

/// Renders the memory field from the outcome of the memory probe.
pub fn memory_report(memory: &Option<MemoryReading>) -> (text: String)
    ensures
        text@ == memory_text(*memory),
{
    match memory {
        None => sentinel(),
        Some(reading) => {
            let active = find_meminfo(&reading.meminfo, "Active");
            let active_anon = find_meminfo(&reading.meminfo, "Active(anon)");
            let cached = find_meminfo(&reading.meminfo, "Cached");
            match (active, active_anon, cached) {
                (Some(active), Some(active_anon), Some(cached)) => {
                    let used = used_bytes(reading.total, reading.free);
                    let mut ram: String = " Ram : ".to_owned();
                    ram.append(byte_size_text(used).as_str());
                    ram.append(" used / ");
                    ram.append(byte_size_text(reading.total).as_str());
                    let mut lines: Vec<String> = Vec::new();
                    lines.push(ram);
                    lines.push(labelled_size(" Active : ", active));
                    lines.push(labelled_size(" Active(anon) : ", active_anon));
                    lines.push(labelled_size(" Cached : ", cached));
                    proof {
                        assert(texts_of(lines@) =~= memory_lines(
                            reading.total,
                            used,
                            active,
                            active_anon,
                            cached,
                        ));
                    }
                    array_to_string_print(lines)
                },
                _ => sentinel(),
            }
        },
    }
}

/// A label followed by a byte size.
fn labelled_size(label: &str, bytes: u64) -> (line: String)
    ensures
        line@ == label@ + byte_size_display(bytes),
{
    let mut line: String = label.to_owned();
    line.append(byte_size_text(bytes).as_str());
    line
}

/// Renders the load field from the outcome of the load probe.
pub fn load_report(load: &Option<LoadReading>) -> (text: String)
    ensures
        text@ == load_text(*load),
{
    match load {
        None => sentinel(),
        Some(reading) => {
            let mut text: String = reading.user.clone();
            text.append("% user, ");
            text.append(reading.nice.as_str());
            text.append("% nice, ");
            text.append(reading.system.as_str());
            text.append("% system, ");
            text.append(reading.interrupt.as_str());
            text.append("% intr, ");
            text.append(reading.idle.as_str());
            text.append("% idle ");
            text
        },
    }
}

/// Renders the uptime field from the outcome of the uptime probe.
pub fn uptime_report(uptime: &Option<UptimeReading>) -> (text: String)
    ensures
        text@ == uptime_text(*uptime),
{
    match uptime {
        Some(reading) => {
            if reading.nanos < 1_000_000_000 {
                duration_text(reading.secs, reading.nanos)
            } else {
                sentinel()
            }
        },
        None => sentinel(),
    }
}

/// Renders the boot time field from the outcome of the boot time probe.
pub fn boot_time_report(boot_time: &Option<BootTimeReading>) -> (text: String)
    ensures
        text@ == boot_time_text(*boot_time),
{
    match boot_time {
        Some(reading) => match date_time_text(reading.unix_nanos) {
            Some(text) => text,
            None => sentinel(),
        },
        None => sentinel(),
    }
}

/// What a snapshot holds, as plain texts.
pub struct Snapshot {
    pub name: Seq<char>,
    pub time: Seq<char>,
    pub network: Seq<char>,
    pub memory: Seq<char>,
    pub load: Seq<char>,
    pub temp: Seq<char>,
    pub up_time: Seq<char>,
    pub boot_time: Seq<char>,
}

/// The snapshot that a machine has before any reading is taken in: every
/// metric field holds its sentinel.
pub open spec fn blank_snapshot(name: Seq<char>, time: Seq<char>) -> Snapshot {
    Snapshot {
        name,
        time,
        network: sentinel_text(),
        memory: sentinel_text(),
        load: sentinel_text(),
        temp: sentinel_text(),
        up_time: sentinel_text(),
        boot_time: sentinel_text(),
    }
}

/// The snapshot of a machine once the readings of one cycle are taken in.
pub open spec fn snapshot_of(name: Seq<char>, time: Seq<char>, readings: Readings) -> Snapshot {
    Snapshot {
        name,
        time,
        network: network_text(readings.networks),
        memory: memory_text(readings.memory),
        load: load_text(readings.load),
        temp: temperature_text(readings.temperature),
        up_time: uptime_text(readings.uptime),
        boot_time: boot_time_text(readings.boot_time),
    }
}

/// The pieces of the report, labels and fields in turn, in their fixed order.
pub open spec fn report_parts(snapshot: Snapshot) -> Seq<Seq<char>> {
    seq![
        "System Details - "@,
        snapshot.time,
        "\n"@,
        "-----------------------------------"@,
        "\nName: "@,
        snapshot.name,
        "\nNetworks : "@,
        snapshot.network,
        "\nMemory-Details : "@,
        snapshot.memory,
        "\nCPU-Load : "@,
        snapshot.load,
        "\nCPU-Temp : "@,
        snapshot.temp,
        "°C"@,
        "\nUp-Time : "@,
        snapshot.up_time,
        "\nOn-Time : "@,
        snapshot.boot_time,
        "\n-----------------------------------"@,
    ]
}

/// The first `count` of `parts`, one after the other.
pub open spec fn joined(parts: Seq<Seq<char>>, count: int) -> Seq<char>
    decreases count,
{
    if count <= 0 {
        Seq::<char>::empty()
    } else {
        joined(parts, count - 1) + parts[count - 1]
    }
}

/// The report of a snapshot: all its pieces, one after the other.
pub open spec fn report_text(snapshot: Snapshot) -> Seq<char> {
    joined(report_parts(snapshot), 20)
}

/// Renders the fields of a snapshot as the report: a fixed block of labelled
/// lines between two rules, the fields in their fixed order.
pub fn format_report(
    time: &str,
    name: &str,
    network: &str,
    memory: &str,
    load: &str,
    temp: &str,
    up_time: &str,
    boot_time: &str,
) -> (text: String)
    ensures
        text@ == report_text(
            Snapshot {
                name: name@,
                time: time@,
                network: network@,
                memory: memory@,
                load: load@,
                temp: temp@,
                up_time: up_time@,
                boot_time: boot_time@,
            },
        ),
{
    let mut text: String = "System Details - ".to_owned();
    text.append(time);
    text.append("\n");
    text.append("-----------------------------------");
    text.append("\nName: ");
    text.append(name);
    text.append("\nNetworks : ");
    text.append(network);
    text.append("\nMemory-Details : ");
    text.append(memory);
    text.append("\nCPU-Load : ");
    text.append(load);
    text.append("\nCPU-Temp : ");
    text.append(temp);
    text.append("°C");
    text.append("\nUp-Time : ");
    text.append(up_time);
    text.append("\nOn-Time : ");
    text.append(boot_time);
    text.append("\n-----------------------------------");
    proof {
        reveal_with_fuel(joined, 21);
        assert(text@ =~= report_text(
            Snapshot {
                name: name@,
                time: time@,
                network: network@,
                memory: memory@,
                load: load@,
                temp: temp@,
                up_time: up_time@,
                boot_time: boot_time@,
            },
        ));
    }
    text
}

/// The current local time as `YYYY-MM-DD_HH:MM:SS`. Calls `chrono::Local::now`
/// and formats the result with chrono's `format`. Trusted, and nothing is
/// claimed of the text: it depends on the clock and the time zone.
#[verifier::external_body]
pub fn get_time_stamp() -> String {
    chrono::Local::now().format("%Y-%m-%d_%H:%M:%S").to_string()
}

/// The telemetry snapshot of one named machine.
pub struct RemotePC {
    name: String,
    network: String,
    memory: String,
    load: String,
    temp: String,
    up_time: String,
    boot_time: String,
    time: String,
}

impl View for RemotePC {
    type V = Snapshot;

    closed spec fn view(&self) -> Snapshot {
        Snapshot {
            name: self.name@,
            time: self.time@,
            network: self.network@,
            memory: self.memory@,
            load: self.load@,
            temp: self.temp@,
            up_time: self.up_time@,
            boot_time: self.boot_time@,
        }
    }
}

impl RemotePC {
    /// A blank snapshot of the machine `name`, stamped with the current time.
    pub fn new(name: &str) -> (pc: Self)
        ensures
            pc@ == blank_snapshot(name@, pc@.time),
    {
        Self::with_time_stamp(name, get_time_stamp())
    }

    /// A blank snapshot of the machine `name`, stamped with `time`.
    pub fn with_time_stamp(name: &str, time: String) -> (pc: Self)
        ensures
            pc@ == blank_snapshot(name@, time@),
    {
        RemotePC {
            name: name.to_owned(),
            network: sentinel(),
            memory: sentinel(),
            load: sentinel(),
            temp: sentinel(),
            up_time: sentinel(),
            boot_time: sentinel(),
            time,
        }
    }

    /// The snapshot of the machine `name` for one cycle, assembled in one go:
    /// stamped with `time` and holding what the readings give.
    pub fn build_snapshot(name: &str, time: String, readings: Readings) -> (pc: Self)
        ensures
            pc@ == snapshot_of(name@, time@, readings),
    {
        let mut pc = Self::with_time_stamp(name, time);
        pc.get_all(readings);
        pc
    }

    /// Takes in the readings of one cycle, each probe's outcome for itself: a
    /// failed probe leaves its sentinel and touches no other field.
    pub fn get_all(&mut self, readings: Readings)
        ensures
            final(self)@ == snapshot_of(old(self)@.name, old(self)@.time, readings),
    {
        let Readings { networks, memory, load, uptime, boot_time, temperature } = readings;
        self.get_network_details(networks);
        self.get_memory_details(memory);
        self.get_cpu_load(load);
        self.get_up_time(uptime, boot_time);
        self.get_temperature(temperature);
    }

    /// Sets the network field from the outcome of the interface enumeration.
    pub fn get_network_details(&mut self, networks: Option<Vec<NetworkInterface>>)
        ensures
            final(self)@ == (Snapshot { network: network_text(networks), ..old(self)@ }),
    {
        self.network = network_report(&networks);
    }

    /// Sets the memory field from the outcome of the memory probe.
    pub fn get_memory_details(&mut self, memory: Option<MemoryReading>)
        ensures
            final(self)@ == (Snapshot { memory: memory_text(memory), ..old(self)@ }),
    {
        self.memory = memory_report(&memory);
    }

    /// Sets the load field from the outcome of the load probe.
    pub fn get_cpu_load(&mut self, load: Option<LoadReading>)
        ensures
            final(self)@ == (Snapshot { load: load_text(load), ..old(self)@ }),
    {
        self.load = load_report(&load);
    }

    /// Sets the uptime and boot time fields, each from its own probe's outcome.
    pub fn get_up_time(&mut self, uptime: Option<UptimeReading>, boot_time: Option<BootTimeReading>)
        ensures
            final(self)@ == (Snapshot {
                up_time: uptime_text(uptime),
                boot_time: boot_time_text(boot_time),
                ..old(self)@
            }),
    {
        self.up_time = uptime_report(&uptime);
        self.boot_time = boot_time_report(&boot_time);
    }

    /// Sets the temperature field from the outcome of the temperature probe.
    pub fn get_temperature(&mut self, temperature: Option<String>)
        ensures
            final(self)@ == (Snapshot { temp: temperature_text(temperature), ..old(self)@ }),
    {
        self.temp = match temperature {
            Some(text) => text,
            None => sentinel(),
        };
    }

    /// Renders the snapshot as its report.
    pub fn report(&self) -> (text: String)
        ensures
            text@ == report_text(self@),
    {
        format_report(
            self.time.as_str(),
            self.name.as_str(),
            self.network.as_str(),
            self.memory.as_str(),
            self.load.as_str(),
            self.temp.as_str(),
            self.up_time.as_str(),
            self.boot_time.as_str(),
        )
    }

    /// The machine's label.
    pub fn name(&self) -> (text: &str)
        ensures
            text@ == self@.name,
    {
        self.name.as_str()
    }

    /// The time at which the snapshot was begun.
    pub fn time(&self) -> (text: &str)
        ensures
            text@ == self@.time,
    {
        self.time.as_str()
    }

    /// The network field.
    pub fn network(&self) -> (text: &str)
        ensures
            text@ == self@.network,
    {
        self.network.as_str()
    }

    /// The memory field.
    pub fn memory(&self) -> (text: &str)
        ensures
            text@ == self@.memory,
    {
        self.memory.as_str()
    }

    /// The load field.
    pub fn load(&self) -> (text: &str)
        ensures
            text@ == self@.load,
    {
        self.load.as_str()
    }

    /// The temperature field.
    pub fn temp(&self) -> (text: &str)
        ensures
            text@ == self@.temp,
    {
        self.temp.as_str()
    }

    /// The uptime field.
    pub fn up_time(&self) -> (text: &str)
        ensures
            text@ == self@.up_time,
    {
        self.up_time.as_str()
    }

    /// The boot time field.
    pub fn boot_time(&self) -> (text: &str)
        ensures
            text@ == self@.boot_time,
    {
        self.boot_time.as_str()
    }
}

} // verus!
