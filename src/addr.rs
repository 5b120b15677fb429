use vstd::prelude::*;

verus! {

/// A network endpoint: an IP address and a port.
///
/// An IPv4 address is held as its 32-bit big-endian value, an IPv6 address
/// as its 128-bit big-endian value, with the flow label and scope of the
/// IPv6 socket address beside it.
#[derive(Clone, Copy, Debug, PartialEq, Eq, Hash, Structural)]
pub enum SocketAddress {
    V4 { ip: u32, port: u16 },
    V6 { ip: u128, port: u16, flowinfo: u32, scope_id: u32 },
}

} // verus!
