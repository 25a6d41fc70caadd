//! Renderings that are left to the crates which define them: byte sizes,
//! durations, calendar times and network addresses. Each function here makes
//! one outside call; its contract is taken on trust.

use vstd::prelude::*;

verus! {

/// The text that `bytesize::ByteSize` displays for a number of bytes.
pub uninterp spec fn byte_size_display(bytes: u64) -> Seq<char>;

/// The text that `std::time::Duration` shows under `{:?}` for a duration of
/// `secs` whole seconds and `nanos` further nanoseconds.
pub uninterp spec fn duration_debug(secs: u64, nanos: u32) -> Seq<char>;

/// The text that `time::OffsetDateTime` displays for the instant `nanos`
/// nanoseconds after the Unix epoch, taken in UTC; `None` where the instant lies
/// outside the calendar range of that type.
pub uninterp spec fn date_time_display(nanos: i128) -> Option<Seq<char>>;

/// The text that `std::net::Ipv4Addr` displays for the address `a.b.c.d`.
pub uninterp spec fn ipv4_display(a: u8, b: u8, c: u8, d: u8) -> Seq<char>;

/// The text that `std::net::Ipv6Addr` displays for the address made of eight
/// 16-bit segments.
pub uninterp spec fn ipv6_display(segments: Seq<u16>) -> Seq<char>;

/// What is left of `total` once `free` is taken away, and zero where `free` is
/// the larger.
pub open spec fn used_of(total: u64, free: u64) -> u64 {
    if total >= free {
        (total - free) as u64
    } else {
        0
    }
}

/// Calls `systemstat::saturating_sub_bytes` on the two sizes. Trusted: the
/// result is the difference of the byte counts, held at zero from below.
#[verifier::external_body]
pub(crate) fn used_bytes(total: u64, free: u64) -> (used: u64)
    ensures
        used == used_of(total, free),
{
    systemstat::saturating_sub_bytes(systemstat::ByteSize::b(total), systemstat::ByteSize::b(free))
        .as_u64()
}

/// Formats a byte count through `Display` of `bytesize::ByteSize`. Trusted: the
/// text depends on the count alone.
#[verifier::external_body]
pub(crate) fn byte_size_text(bytes: u64) -> (text: String)
    ensures
        text@ == byte_size_display(bytes),
{
    systemstat::ByteSize::b(bytes).to_string()
}

/// Formats a duration through `Debug` of `std::time::Duration`. Trusted: the
/// text depends on the two counts alone. `Duration::new` carries surplus
/// nanoseconds into the seconds and may overflow there, so they are kept below
/// one second.
#[verifier::external_body]
pub(crate) fn duration_text(secs: u64, nanos: u32) -> (text: String)
    requires
        nanos < 1_000_000_000,
    ensures
        text@ == duration_debug(secs, nanos),
{
    format!("{:?}", std::time::Duration::new(secs, nanos))
}

/// Builds the instant with `time::OffsetDateTime::from_unix_timestamp_nanos`
/// and formats it through `Display`. Trusted: whether the instant can be built,
/// and the text if so, depend on the count alone.
#[verifier::external_body]
pub(crate) fn date_time_text(nanos: i128) -> (text: Option<String>)
    ensures
        text is Some <==> date_time_display(nanos) is Some,
        text matches Some(t) ==> date_time_display(nanos) == Some(t@),
{
    match systemstat::OffsetDateTime::from_unix_timestamp_nanos(nanos) {
        Ok(instant) => Some(instant.to_string()),
        Err(_) => None,
    }
}

/// Formats an IPv4 address through `Display` of `std::net::Ipv4Addr`. Trusted:
/// the text depends on the four octets alone.
#[verifier::external_body]
pub(crate) fn ipv4_text(a: u8, b: u8, c: u8, d: u8) -> (text: String)
    ensures
        text@ == ipv4_display(a, b, c, d),
{
    systemstat::Ipv4Addr::new(a, b, c, d).to_string()
}

/// Formats an IPv6 address through `Display` of `std::net::Ipv6Addr`. Trusted:
/// the text depends on the eight segments alone.
#[verifier::external_body]
pub(crate) fn ipv6_text(segments: &[u16; 8]) -> (text: String)
    ensures
        text@ == ipv6_display(segments@),
{
    systemstat::Ipv6Addr::from(*segments).to_string()
}

} // verus!
