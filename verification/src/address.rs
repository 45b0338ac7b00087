//! The address blocklist: private and reserved ranges that no request may be
//! connected to.
use vstd::prelude::*;
use vstd::string::*;

use crate::text::contains_text;
#[allow(unused_imports)]
use crate::text::{occurs_in, outcome_view};

verus! {

/// A resolved address.
#[derive(Clone, Copy, PartialEq, Eq, Debug)]
pub enum IpAddress {
    /// The four octets.
    V4(u8, u8, u8, u8),
    /// The eight sixteen-bit segments.
    V6([u16; 8]),
}

/// An IPv4 address as a number.
pub open spec fn v4_number(a: u8, b: u8, c: u8, d: u8) -> int {
    a * 0x100_0000 + b * 0x1_0000 + c * 0x100 + d
}

/// The number of the first `n` segments of an IPv6 address.
pub open spec fn v6_prefix(segments: Seq<u16>, n: nat) -> int
    decreases n,
{
    if n == 0 {
        0
    } else {
        v6_prefix(segments, (n - 1) as nat) * 0x1_0000 + segments[n - 1]
    }
}

/// An IPv6 address as a number.
pub open spec fn v6_number(segments: Seq<u16>) -> int {
    v6_prefix(segments, 8)
}

/// `number` lies in the block of `size` addresses that starts at `first`.
pub open spec fn in_block(number: int, first: int, size: int) -> bool {
    first <= number < first + size
}

/// The blocked IPv4 range that an address lies in.
pub open spec fn blocked_v4(number: int) -> Option<Seq<char>> {
    if in_block(number, 0, 0x100_0000) {
        Some("0.0.0.0/8"@)
    } else if in_block(number, v4_number(10, 0, 0, 0), 0x100_0000) {
        Some("10.0.0.0/8"@)
    } else if in_block(number, v4_number(100, 64, 0, 0), 0x40_0000) {
        Some("100.64.0.0/10"@)
    } else if in_block(number, v4_number(127, 0, 0, 0), 0x100_0000) {
        Some("127.0.0.0/8"@)
    } else if in_block(number, v4_number(169, 254, 0, 0), 0x1_0000) {
        Some("169.254.0.0/16"@)
    } else if in_block(number, v4_number(172, 16, 0, 0), 0x10_0000) {
        Some("172.16.0.0/12"@)
    } else if in_block(number, v4_number(192, 168, 0, 0), 0x1_0000) {
        Some("192.168.0.0/16"@)
    } else {
        None
    }
}

/// The first address of the IPv4-mapped block `::ffff:0:0/96`.
pub open spec fn mapped_base() -> int {
    0xffff_0000_0000
}

/// The blocked range that an IPv6 address lies in. An IPv4-mapped address is
/// judged by the IPv4 address that it carries.
pub open spec fn blocked_v6(number: int) -> Option<Seq<char>> {
    if in_block(number, mapped_base(), 0x1_0000_0000) {
        blocked_v4(number - mapped_base())
    } else if in_block(number, 0, 1) {
        Some("::/128"@)
    } else if in_block(number, 1, 1) {
        Some("::1/128"@)
    } else if in_block(
        number,
        0xfe80_0000_0000_0000_0000_0000_0000_0000int,
        0x40_0000_0000_0000_0000_0000_0000_0000int,
    ) {
        Some("fe80::/10"@)
    } else if in_block(
        number,
        0xfc00_0000_0000_0000_0000_0000_0000_0000int,
        0x200_0000_0000_0000_0000_0000_0000_0000int,
    ) {
        Some("fc00::/7"@)
    } else {
        None
    }
}

/// The blocked range that an address lies in, if any.
pub open spec fn blocked_range(address: IpAddress) -> Option<Seq<char>> {
    match address {
        IpAddress::V4(a, b, c, d) => blocked_v4(v4_number(a, b, c, d)),
        IpAddress::V6(segments) => blocked_v6(v6_number(segments@)),
    }
}

/// An optional label as a mathematical value.
pub open spec fn label_view(label: Option<&'static str>) -> Option<Seq<char>> {
    match label {
        Some(l) => Some(l@),
        None => None,
    }
}

fn check_v4(a: u8, b: u8, c: u8, d: u8) -> (range: Option<&'static str>)
    ensures
        label_view(range) == blocked_v4(v4_number(a, b, c, d)),
{
    if a == 0 {
        Some("0.0.0.0/8")
    } else if a == 10 {
        Some("10.0.0.0/8")
    } else if a == 100 && 64 <= b && b <= 127 {
        Some("100.64.0.0/10")
    } else if a == 127 {
        Some("127.0.0.0/8")
    } else if a == 169 && b == 254 {
        Some("169.254.0.0/16")
    } else if a == 172 && 16 <= b && b <= 31 {
        Some("172.16.0.0/12")
    } else if a == 192 && b == 168 {
        Some("192.168.0.0/16")
    } else {
        None
    }
}

/// The number of an IPv6 address, written out over its segments.
pub proof fn lemma_v6_number(s: Seq<u16>)
    ensures
        v6_number(s) == s[0] * 0x1_0000_0000_0000_0000_0000_0000_0000int + s[1]
            * 0x1_0000_0000_0000_0000_0000_0000int + s[2] * 0x1_0000_0000_0000_0000_0000int + s[3]
            * 0x1_0000_0000_0000_0000int + s[4] * 0x1_0000_0000_0000int + s[5] * 0x1_0000_0000int
            + s[6] * 0x1_0000int + s[7],
{
    reveal_with_fuel(v6_prefix, 9);
}

fn check_v6(segments: &[u16; 8]) -> (range: Option<&'static str>)
    ensures
        label_view(range) == blocked_v6(v6_number(segments@)),
{
    proof {
        lemma_v6_number(segments@);
    }
    let s0: u16 = segments[0];
    let high_zero = s0 == 0 && segments[1] == 0 && segments[2] == 0 && segments[3] == 0
        && segments[4] == 0;
    let (s5, s6, s7): (u16, u16, u16) = (segments[5], segments[6], segments[7]);
    if high_zero && s5 == 0xffff {
        let (a, b): (u8, u8) = ((s6 / 256) as u8, (s6 % 256) as u8);
        let (c, d): (u8, u8) = ((s7 / 256) as u8, (s7 % 256) as u8);
        assert(v4_number(a, b, c, d) == v6_number(segments@) - mapped_base());
        check_v4(a, b, c, d)
    } else if high_zero && s5 == 0 && s6 == 0 && s7 == 0 {
        Some("::/128")
    } else if high_zero && s5 == 0 && s6 == 0 && s7 == 1 {
        Some("::1/128")
    } else if 0xfe80 <= s0 && s0 <= 0xfebf {
        Some("fe80::/10")
    } else if 0xfc00 <= s0 && s0 <= 0xfdff {
        Some("fc00::/7")
    } else {
        None
    }
}

/// The blocked range that an address lies in, if any.
pub fn check_blocked_ip(address: IpAddress) -> (range: Option<&'static str>)
    ensures
        label_view(range) == blocked_range(address),
{
    match address {
        IpAddress::V4(a, b, c, d) => check_v4(a, b, c, d),
        IpAddress::V6(segments) => check_v6(&segments),
    }
}

/// The fixed end of the answer to a blocked address.
pub open spec fn restricted_range_notice() -> Seq<char> {
    "' is in a restricted range. df.http() cannot access private or internal network addresses."@
}

/// The answer when a host resolves to a blocked address. It names the host and
/// not the address.
pub open spec fn blocked_address_message(host: Seq<char>) -> Seq<char> {
    "Blocked: the resolved IP address for '"@ + host + restricted_range_notice()
}

/// The answer to the address that a host resolves to.
pub open spec fn screened(host: Seq<char>, address: IpAddress) -> Result<(), Seq<char>> {
    if blocked_range(address) is Some {
        Err(blocked_address_message(host))
    } else {
        Ok(())
    }
}

/// Checks the address that a connection is about to use.
pub fn screen_address(host: &str, address: IpAddress) -> (answer: Result<(), String>)
    ensures
        outcome_view(answer) == screened(host@, address),
{
    match check_blocked_ip(address) {
        Some(_) => {
            let mut message = "Blocked: the resolved IP address for '".to_owned();
            message.append(host);
            message.append(
                "' is in a restricted range. df.http() cannot access private or internal network addresses.",
            );
            Err(message)
        },
        None => Ok(()),
    }
}

/// Whether an error text carries the answer to a blocked address.
pub fn is_ssrf_block_error(text: &str) -> (blocked: bool)
    ensures
        blocked == occurs_in(restricted_range_notice(), text@),
{
    contains_text(
        text,
        "' is in a restricted range. df.http() cannot access private or internal network addresses.",
    )
}

} // verus!
