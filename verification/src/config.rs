//! Settings of the protocol peers that a stack instance starts with.
//!
//! The options carry each of these values as given and read nothing inside
//! them; they hold no parameters of their own in this library.

use vstd::prelude::*;

verus! {

/// Settings of the address resolution (ARP) peer.
#[derive(Clone, Copy, Debug, PartialEq, Eq, Structural)]
pub struct ArpConfig {}

/// Settings of the TCP peer.
#[derive(Clone, Copy, Debug, PartialEq, Eq, Structural)]
pub struct TcpConfig {}

/// Settings of the UDP peer.
#[derive(Clone, Copy, Debug, PartialEq, Eq, Structural)]
pub struct UdpConfig {}

impl Default for ArpConfig {
    fn default() -> (r: Self)
        ensures
            r == (ArpConfig {}),
    {
        ArpConfig {}
    }
}

impl Default for TcpConfig {
    fn default() -> (r: Self)
        ensures
            r == (TcpConfig {}),
    {
        TcpConfig {}
    }
}

impl Default for UdpConfig {
    fn default() -> (r: Self)
        ensures
            r == (UdpConfig {}),
    {
        UdpConfig {}
    }
}

} // verus!
