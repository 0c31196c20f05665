//! A real-time lighting-control relay library.
//!
//! The library receives decoded Art-Net style messages (universe output
//! frames and discovery polls), applies live-adjustable per-universe
//! transforms (amplitude rescaling and channel remapping) and produces the
//! outbound datagrams to send, together with poll replies. All decision
//! logic is verified; the byte-level wire codec is the `artnet_protocol`
//! crate, relied upon through a small set of trusted wrappers.

use vstd::prelude::*;

pub mod artnet;
pub mod dispatch;
pub mod midi;
pub mod osc;
pub mod remap;
pub mod scale;

verus! {

/// The lighting-control protocol's well-known UDP port.
pub const PORT: u16 = 6454;

/// The host part of a network address, as plain integers.
#[derive(Clone, Copy, Debug, PartialEq, Eq, Structural)]
pub enum Host {
    /// An IPv4 host, one field per octet.
    V4 { a: u8, b: u8, c: u8, d: u8 },
    /// An IPv6 host, packed big-endian into two 64-bit halves.
    V6 { hi: u64, lo: u64 },
}

/// A socket address: a host and a UDP port.
#[derive(Clone, Copy, Debug, PartialEq, Eq, Structural)]
pub struct SockAddress {
    /// The host part.
    pub host: Host,
    /// The UDP port.
    pub port: u16,
}

impl SockAddress {
    /// The same host, with the port replaced by `port`.
    pub fn with_port(self, port: u16) -> (r: SockAddress)
        ensures
            r == (SockAddress { host: self.host, port }),
    {
        SockAddress { host: self.host, port }
    }
}

/// A datagram the relay wants sent: a destination and the raw bytes.
#[derive(Debug)]
pub struct Outbound {
    /// Where the datagram goes.
    pub dest: SockAddress,
    /// The encoded bytes to send.
    pub payload: Vec<u8>,
}

} // verus!
