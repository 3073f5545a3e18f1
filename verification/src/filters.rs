//! Which address a connection is charged to, and how addresses are written
//! as the keys that the rate limits go by.
use crate::rate_limiter::IpKey;
use vstd::prelude::*;

verus! {

/// The address announced in an `X-Forwarded-For` header is preferred to the
/// one the connection comes from; with neither, the connection is refused.
pub fn pick_client_ip(forwarded_for: Option<IpKey>, remote: Option<IpKey>) -> (ip: Option<IpKey>)
    ensures
        ip == (if forwarded_for is Some {
            forwarded_for
        } else {
            remote
        }),
{
    match forwarded_for {
        Some(ip) => Some(ip),
        None => remote,
    }
}

/// The number of an IPv4 address `a.b.c.d`.
pub open spec fn ipv4_number(a: u8, b: u8, c: u8, d: u8) -> int {
    a * 0x100_0000 + b * 0x1_0000 + c * 0x100 + d
}

/// The number of an IPv6 address, its eight 16-bit groups read from the
/// most significant.
pub open spec fn ipv6_number(g: [u16; 8]) -> int {
    g[0] * 0x1_0000_0000_0000_0000_0000_0000_0000
        + g[1] * 0x1_0000_0000_0000_0000_0000_0000
        + g[2] * 0x1_0000_0000_0000_0000_0000
        + g[3] * 0x1_0000_0000_0000_0000
        + g[4] * 0x1_0000_0000_0000
        + g[5] * 0x1_0000_0000
        + g[6] * 0x1_0000
        + g[7]
}

/// The key of the IPv4 address `a.b.c.d`.
pub fn ipv4_key(a: u8, b: u8, c: u8, d: u8) -> (k: IpKey)
    ensures
        k matches IpKey::V4(n) && n == ipv4_number(a, b, c, d),
{
    IpKey::V4((a as u32) * 0x100_0000 + (b as u32) * 0x1_0000 + (c as u32) * 0x100 + (d as u32))
}

/// The key of the IPv6 address with the groups `g`.
pub fn ipv6_key(g: [u16; 8]) -> (k: IpKey)
    ensures
        k matches IpKey::V6(n) && n == ipv6_number(g),
{
    IpKey::V6(
        (g[0] as u128) * 0x1_0000_0000_0000_0000_0000_0000_0000
            + (g[1] as u128) * 0x1_0000_0000_0000_0000_0000_0000
            + (g[2] as u128) * 0x1_0000_0000_0000_0000_0000
            + (g[3] as u128) * 0x1_0000_0000_0000_0000
            + (g[4] as u128) * 0x1_0000_0000_0000
            + (g[5] as u128) * 0x1_0000_0000
            + (g[6] as u128) * 0x1_0000
            + (g[7] as u128),
    )
}

} // verus!
