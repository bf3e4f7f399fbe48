use vstd::prelude::*;

verus! {

/// The native types of one host platform's TLS provider and I/O substrate.
///
/// The library never looks inside a value of any of these types: it stores
/// them, orders them and hands them on. A program picks one implementation
/// per target when it is compiled, so no value is dispatched on at run time.
pub trait Platform {
    /// A certificate that the TLS provider accepts as a trust anchor.
    type TrustAnchor;

    /// A certificate chain with its private key, presented to a peer that
    /// asks the client to authenticate itself.
    type Identity;

    /// The handle of the scheduler under which the connection is opened.
    type Scheduler;

    /// What the TCP connection primitive reports when it fails.
    type ConnectError;

    /// What the TLS handshake primitive reports when it fails.
    type HandshakeError;
}

} // verus!
