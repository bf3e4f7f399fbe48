use vstd::prelude::*;

verus! {

/// The socket address of a remote resolver.
///
/// The IP address is held as the integer that its octets spell in network
/// order, so that two addresses are equal exactly when all fields are.
#[derive(Clone, Copy, Debug, PartialEq, Eq, Structural)]
pub enum SocketAddress {
    V4 { ipv4: u32, port: u16 },
    V6 { ipv6: u128, port: u16, flowinfo: u32, scope_id: u32 },
}

} // verus!
