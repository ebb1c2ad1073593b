use vstd::prelude::*;

verus! {

/// An IPv4 socket address: `ip` holds the four octets big-endian (`a.b.c.d` is
/// `a * 2^24 + b * 2^16 + c * 2^8 + d`).
#[derive(Debug, Clone, Copy, PartialEq, Eq, Structural)]
pub struct Endpoint4 {
    pub ip: u32,
    pub port: u16,
}

/// The big-endian `u32` of four IPv4 octets.
pub open spec fn ipv4_of(a: u8, b: u8, c: u8, d: u8) -> u32 {
    (a * 16777216 + b * 65536 + c * 256 + d) as u32
}

/// Packs four octets into the big-endian `u32` form of `Endpoint4::ip`.
pub fn ipv4_from_octets(a: u8, b: u8, c: u8, d: u8) -> (r: u32)
    ensures
        r == ipv4_of(a, b, c, d),
        r == a * 16777216 + b * 65536 + c * 256 + d,
{
    (a as u32) * 16777216 + (b as u32) * 65536 + (c as u32) * 256 + (d as u32)
}

/// The value of two bytes read big-endian.
pub open spec fn be16(hi: u8, lo: u8) -> u16 {
    (hi * 256 + lo) as u16
}

/// `u16::from_be_bytes([hi, lo])`.
pub fn be16_exec(hi: u8, lo: u8) -> (r: u16)
    ensures
        r == be16(hi, lo),
        r == hi * 256 + lo,
{
    (hi as u16) * 256 + (lo as u16)
}

/// Any socket address, IPv4 or IPv6, as the fields that decide its equality:
/// for IPv4, `ip` is the address as a `u32` and the IPv6-only fields are zero.
#[derive(Debug, Clone, Copy, PartialEq, Eq, Structural)]
pub struct PeerAddr {
    pub is_v6: bool,
    pub ip: u128,
    pub port: u16,
    pub flowinfo: u32,
    pub scope_id: u32,
}

} // verus!
