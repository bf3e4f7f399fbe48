use vstd::prelude::*;

use crate::attempt::{AttemptView, ConnectionAttempt, HandshakeRequest, HandshakeRequestView};
use crate::endpoint::SocketAddress;
use crate::platform::Platform;
use crate::send_handle::{Outbox, SendHandle};

verus! {

/// What a [`TlsClientStreamBuilder`] stands for: the TLS configuration
/// gathered so far.
pub ghost struct Configuration<P: Platform> {
    /// The trust anchors added, in the order in which they were added.
    pub anchors: Seq<P::TrustAnchor>,
    /// The client identity, if one was set.
    pub identity: Option<P::Identity>,
}

impl<P: Platform> Configuration<P> {
    /// The configuration that trusts nothing beyond the platform's own
    /// store and presents no identity.
    pub open spec fn empty() -> Configuration<P> {
        Configuration { anchors: Seq::empty(), identity: None }
    }

    /// This configuration with `ca` trusted as well, after those trusted
    /// already.
    pub open spec fn with_anchor(self, ca: P::TrustAnchor) -> Configuration<P> {
        Configuration { anchors: self.anchors.push(ca), ..self }
    }

    /// This configuration with `identity` in place of whatever identity it
    /// had.
    pub open spec fn with_identity(self, identity: P::Identity) -> Configuration<P> {
        Configuration { identity: Some(identity), ..self }
    }

    /// The handshake that a stream built from this configuration asks for
    /// when the peer is expected to be `peer_name`.
    pub open spec fn request(self, peer_name: Seq<char>) -> HandshakeRequestView<P> {
        HandshakeRequestView { peer_name, anchors: self.anchors, identity: self.identity }
    }
}

/// One call made on a builder before it is built.
pub ghost enum BuilderCall<P: Platform> {
    AddCa(P::TrustAnchor),
    Identity(P::Identity),
}

impl<P: Platform> BuilderCall<P> {
    /// The trust anchor that this call adds, if it adds one.
    pub open spec fn anchor(self) -> Option<P::TrustAnchor> {
        match self {
            BuilderCall::AddCa(ca) => Some(ca),
            BuilderCall::Identity(_) => None,
        }
    }
}

impl<P: Platform> Configuration<P> {
    /// This configuration after `call`.
    pub open spec fn after(self, call: BuilderCall<P>) -> Configuration<P> {
        match call {
            BuilderCall::AddCa(ca) => self.with_anchor(ca),
            BuilderCall::Identity(identity) => self.with_identity(identity),
        }
    }

    /// This configuration after each of `calls`, in order.
    pub open spec fn after_all(self, calls: Seq<BuilderCall<P>>) -> Configuration<P>
        decreases calls.len(),
    {
        if calls.len() == 0 {
            self
        } else {
            self.after_all(calls.drop_last()).after(calls.last())
        }
    }
}

/// Gathers the TLS configuration of a client stream, then builds the
/// connection attempt.
pub struct TlsClientStreamBuilder<P: Platform> {
    ca_chain: Vec<P::TrustAnchor>,
    identity: Option<P::Identity>,
}

impl<P: Platform> View for TlsClientStreamBuilder<P> {
    type V = Configuration<P>;

    closed spec fn view(&self) -> Configuration<P> {
        Configuration { anchors: self.ca_chain@, identity: self.identity }
    }
}

impl<P: Platform> TlsClientStreamBuilder<P> {
    /// A builder with no trust anchor and no client identity.
    pub fn new() -> (builder: TlsClientStreamBuilder<P>)
        ensures
            builder@ == Configuration::<P>::empty(),
    {
        TlsClientStreamBuilder { ca_chain: Vec::new(), identity: None }
    }

    /// Adds a custom trusted peer certificate or certificate authority.
    ///
    /// The certificate is not examined here; whether it is usable shows
    /// when the handshake is made.
    pub fn add_ca(&mut self, ca: P::TrustAnchor)
        ensures
            final(self)@ == old(self)@.with_anchor(ca),
    {
        self.ca_chain.push(ca);
    }

    /// Sets the client identity for mutual TLS authentication, replacing
    /// any identity set before.
    pub fn identity(&mut self, pkcs12: P::Identity)
        ensures
            final(self)@ == old(self)@.with_identity(pkcs12),
    {
        self.identity = Some(pkcs12);
    }

    /// Consumes the configuration and returns at once, before anything is
    /// asked of the network, with an unstarted attempt to reach
    /// `name_server` and the send handle that belongs to it.
    ///
    /// * `name_server` - address of the remote resolver
    /// * `subject_name` - the name that the resolver's certificate must be
    ///   issued for
    /// * `loop_handle` - the scheduler under which the connection is opened
    pub fn build(
        self,
        name_server: SocketAddress,
        subject_name: String,
        loop_handle: P::Scheduler,
    ) -> (established: (ConnectionAttempt<P>, SendHandle))
        ensures
            established.0@ == AttemptView::unstarted(
                name_server,
                loop_handle,
                self@.request(subject_name@),
            ),
            established.1@ == Outbox::fresh(name_server),
    {
        let request = HandshakeRequest {
            peer_name: subject_name,
            anchors: self.ca_chain,
            identity: self.identity,
        };
        let attempt = ConnectionAttempt::new(name_server, loop_handle, request);
        let sender = SendHandle::new(name_server);
        (attempt, sender)
    }
}

} // verus!
