//! What holds of every snapshot and every report.

use vstd::prelude::*;
use crate::reading::{IpAddress, NetworkInterface, Readings};
use crate::remote_pc::{
    interface_lines, ip_text, ipv4_place_text, joined, memory_text, network_text, report_parts,
    report_text, snapshot_of, RemotePC, Snapshot,
};
use crate::text::{block_text, sentinel_text};

verus! {

/// The sentinel is the two characters of minus one.
pub proof fn lemma_sentinel_is_minus_one()
    ensures
        sentinel_text() == seq!['-', '1'],
{
    reveal_strlit("-1");
    assert(sentinel_text() =~= seq!['-', '1']);
}

/// A block of one line or more is never empty.
pub proof fn lemma_block_not_empty(lines: Seq<Seq<char>>)
    requires
        lines.len() > 0,
    ensures
        block_text(lines).len() > 0,
{
    reveal_strlit("{");
}

/// A failed probe leaves exactly the sentinel in its field, whatever the other
/// probes gave.
pub proof fn lemma_failed_probe_leaves_sentinel(
    name: Seq<char>,
    time: Seq<char>,
    readings: Readings,
)
    ensures
        readings.networks is None ==> snapshot_of(name, time, readings).network == sentinel_text(),
        readings.memory is None ==> snapshot_of(name, time, readings).memory == sentinel_text(),
        readings.load is None ==> snapshot_of(name, time, readings).load == sentinel_text(),
        readings.uptime is None ==> snapshot_of(name, time, readings).up_time == sentinel_text(),
        readings.boot_time is None ==> snapshot_of(name, time, readings).boot_time
            == sentinel_text(),
        readings.temperature is None ==> snapshot_of(name, time, readings).temp
            == sentinel_text(),
{
}

/// Whatever the probes gave, the memory and load fields are never empty, the
/// network field is empty only where the enumeration succeeded and found no
/// interface, and no failed probe leaves its field empty.
pub proof fn lemma_failure_leaves_no_field_empty(
    name: Seq<char>,
    time: Seq<char>,
    readings: Readings,
)
    ensures
        snapshot_of(name, time, readings).memory.len() > 0,
        snapshot_of(name, time, readings).load.len() > 0,
        snapshot_of(name, time, readings).network.len() == 0 <==> (readings.networks matches Some(
            interfaces,
        ) && interfaces@.len() == 0),
        readings.uptime is None ==> snapshot_of(name, time, readings).up_time.len() > 0,
        readings.boot_time is None ==> snapshot_of(name, time, readings).boot_time.len() > 0,
        readings.temperature is None ==> snapshot_of(name, time, readings).temp.len() > 0,
{
    lemma_sentinel_is_minus_one();
    reveal_strlit("% idle ");
    match readings.memory {
        Some(reading) => {
            assert(memory_text(readings.memory).len() > 0) by {
                reveal_strlit("{");
            }
        },
        None => {},
    }
    match readings.networks {
        Some(interfaces) => {
            if interfaces@.len() > 0 {
                lemma_block_not_empty(interface_lines(interfaces@));
            }
        },
        None => {},
    }
}

/// Rendering is a function of what the snapshot holds: two reports of one
/// snapshot are the same text.
pub proof fn lemma_report_repeatable(pc: RemotePC, first: String, second: String)
    requires
        first@ == report_text(pc@),
        second@ == report_text(pc@),
    ensures
        first@ == second@,
{
}

/// Whether the piece at this place of a report is a label.
pub open spec fn is_label_place(place: int) -> bool {
    place == 0 || place == 2 || place == 3 || place == 4 || place == 6 || place == 8 || place == 10
        || place == 12 || place == 14 || place == 15 || place == 17 || place == 19
}

/// Where the piece at `place` begins in the report of `snapshot`.
pub open spec fn place_start(snapshot: Snapshot, place: int) -> int {
    joined(report_parts(snapshot), place).len() as int
}

/// The first `count` pieces begin the first `more` pieces, for `count <= more`.
pub proof fn lemma_joined_prefix(parts: Seq<Seq<char>>, count: int, more: int)
    requires
        0 <= count <= more,
    ensures
        joined(parts, count).len() <= joined(parts, more).len(),
        joined(parts, more).subrange(0, joined(parts, count).len() as int) == joined(parts, count),
    decreases more - count,
{
    if count < more {
        lemma_joined_prefix(parts, count, more - 1);
        assert(joined(parts, more).subrange(0, joined(parts, count).len() as int) =~= joined(
            parts,
            more - 1,
        ).subrange(0, joined(parts, count).len() as int));
    } else {
        assert(joined(parts, more).subrange(0, joined(parts, count).len() as int) =~= joined(
            parts,
            count,
        ));
    }
}

/// The labels of a report never change place among its pieces, whatever the
/// snapshot holds: the same label stands at each label place of any two
/// reports, each piece stands in the report where the pieces before it end, and
/// an earlier piece ends before a later one begins.
pub proof fn lemma_label_order_fixed(one: Snapshot, other: Snapshot, earlier: int, later: int)
    requires
        0 <= earlier < later < 20,
    ensures
        is_label_place(later) ==> report_parts(one)[later] == report_parts(other)[later],
        is_label_place(earlier) ==> report_parts(one)[earlier] == report_parts(other)[earlier],
        place_start(one, later + 1) <= report_text(one).len(),
        report_text(one).subrange(place_start(one, later), place_start(one, later + 1))
            == report_parts(one)[later],
        report_text(one).subrange(place_start(one, earlier), place_start(one, earlier + 1))
            == report_parts(one)[earlier],
        place_start(one, earlier + 1) <= place_start(one, later),
{
    let parts = report_parts(one);
    lemma_joined_prefix(parts, later + 1, 20);
    lemma_joined_prefix(parts, earlier + 1, 20);
    lemma_joined_prefix(parts, earlier + 1, later);
    assert(joined(parts, later + 1) == joined(parts, later) + parts[later]);
    assert(joined(parts, earlier + 1) == joined(parts, earlier) + parts[earlier]);
    assert(report_text(one).subrange(place_start(one, later), place_start(one, later + 1))
        =~= joined(parts, later + 1).subrange(place_start(one, later), place_start(one, later + 1)));
    assert(joined(parts, later + 1).subrange(place_start(one, later), place_start(one, later + 1))
        =~= parts[later]);
    assert(report_text(one).subrange(place_start(one, earlier), place_start(one, earlier + 1))
        =~= joined(parts, earlier + 1).subrange(
        place_start(one, earlier),
        place_start(one, earlier + 1),
    ));
    assert(joined(parts, earlier + 1).subrange(
        place_start(one, earlier),
        place_start(one, earlier + 1),
    ) =~= parts[earlier]);
}

/// An enumeration that finds no interface gives the empty text, not a pair of
/// braces and not the sentinel.
pub proof fn lemma_no_interface_no_text(interfaces: Vec<NetworkInterface>)
    requires
        interfaces@.len() == 0,
    ensures
        network_text(Some(interfaces)) == Seq::<char>::empty(),
{
}

/// An interface with a single address has the sentinel in its IPv6 place, and
/// in its IPv4 place too unless that address is an IPv4 address.
pub proof fn lemma_single_address_text(addrs: Seq<IpAddress>)
    requires
        addrs.len() == 1,
    ensures
        ip_text(addrs) == "IPv4 : "@ + ipv4_place_text(Some(addrs[0])) + ", IPv6 : "@
            + sentinel_text(),
        !(addrs[0] is V4) ==> ip_text(addrs) == "IPv4 : "@ + sentinel_text() + ", IPv6 : "@
            + sentinel_text(),
{
}

} // verus!
