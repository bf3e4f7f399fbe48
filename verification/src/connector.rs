use native_tls::{Certificate, Identity, TlsConnector, TlsConnectorBuilder};
use vstd::prelude::*;

use crate::attempt::HandshakeRequest;
use crate::platform::Platform;

verus! {

/// A certificate as native-tls holds it for the platform's TLS provider.
#[verifier::external_type_specification]
#[verifier::external_body]
pub struct ExCertificate(Certificate);

/// A certificate chain with its private key, as native-tls holds it.
#[verifier::external_type_specification]
#[verifier::external_body]
pub struct ExIdentity(Identity);

/// The settings from which native-tls makes a connector.
#[verifier::external_type_specification]
#[verifier::external_body]
pub struct ExTlsConnectorBuilder(TlsConnectorBuilder);

/// The root certificates that `builder` trusts besides the platform's own,
/// in the order in which they were added to it.
pub uninterp spec fn added_roots(builder: TlsConnectorBuilder) -> Seq<Certificate>;

/// The identity that a connector made by `builder` presents to a peer that
/// asks for one.
pub uninterp spec fn client_identity(builder: TlsConnectorBuilder) -> Option<Identity>;

/// Whether a connector made by `builder` goes on with a peer whose
/// certificate is invalid or was issued for another name.
pub uninterp spec fn accepts_invalid_peers(builder: TlsConnectorBuilder) -> bool;

/// `native_tls::TlsConnector::builder`: the builder it returns holds no
/// added root certificate and no identity, and accepts no invalid peer.
#[verifier::external_body]
fn connector_builder() -> (builder: TlsConnectorBuilder)
    ensures
        added_roots(builder) == Seq::<Certificate>::empty(),
        client_identity(builder) is None,
        !accepts_invalid_peers(builder),
{
    TlsConnector::builder()
}

/// `native_tls::TlsConnectorBuilder::add_root_certificate`: appends
/// `certificate` to the added roots and changes nothing else.
#[verifier::external_body]
fn add_root_certificate(builder: &mut TlsConnectorBuilder, certificate: Certificate)
    ensures
        added_roots(*final(builder)) == added_roots(*old(builder)).push(certificate),
        client_identity(*final(builder)) == client_identity(*old(builder)),
        accepts_invalid_peers(*final(builder)) == accepts_invalid_peers(*old(builder)),
{
    builder.add_root_certificate(certificate);
}

/// `native_tls::TlsConnectorBuilder::identity`: puts `identity` in place of
/// the builder's identity and changes nothing else.
#[verifier::external_body]
fn set_identity(builder: &mut TlsConnectorBuilder, identity: Identity)
    ensures
        client_identity(*final(builder)) == Some(identity),
        added_roots(*final(builder)) == added_roots(*old(builder)),
        accepts_invalid_peers(*final(builder)) == accepts_invalid_peers(*old(builder)),
{
    builder.identity(identity);
}

/// Prepares the native-tls connector for the handshake that `request`
/// describes: every trust anchor of the request is added as a root, once and
/// in order, the identity is set if the request has one, and the peer's
/// certificate and name are still checked. Returns the settings with the
/// name that the peer is expected to bear.
pub fn configure<P>(request: HandshakeRequest<P>) -> (prepared: (TlsConnectorBuilder, String))
    where P: Platform<TrustAnchor = Certificate, Identity = Identity>
    ensures
        added_roots(prepared.0) == request.anchors@,
        client_identity(prepared.0) == request.identity,
        !accepts_invalid_peers(prepared.0),
        prepared.1@ == request.peer_name@,
{
    let HandshakeRequest { peer_name, anchors, identity } = request;
    let ghost all = anchors@;
    let mut builder = connector_builder();
    for anchor in iter: anchors
        invariant
            iter.seq() == all,
            added_roots(builder) == all.take(iter.index() as int),
            client_identity(builder) is None,
            !accepts_invalid_peers(builder),
    {
        add_root_certificate(&mut builder, anchor);
    }
    match identity {
        Some(identity) => set_identity(&mut builder, identity),
        None => {},
    }
    (builder, peer_name)
}

} // verus!
