use openssl::asn1::Asn1Time;
use openssl::bn::BigNum;
use openssl::ec::{EcGroup, EcKey};
use openssl::hash::MessageDigest;
use openssl::nid::Nid;
use openssl::pkcs12::Pkcs12;
use openssl::pkey::{PKey, Private};
use openssl::x509::{X509NameBuilder, X509};
use tls_client_stream::{Action, Event, Phase, Platform, SocketAddress, TlsClientStreamBuilder};

/// The types that a program on Linux configures its TLS provider with.
struct Native;

impl Platform for Native {
    type TrustAnchor = X509;
    type Identity = native_tls::Identity;
    type Scheduler = ();
    type ConnectError = std::io::Error;
    type HandshakeError = native_tls::Error;
}

fn key() -> PKey<Private> {
    let group = EcGroup::from_curve_name(Nid::X9_62_PRIME256V1).unwrap();
    PKey::from_ec_key(EcKey::generate(&group).unwrap()).unwrap()
}

fn certificate(common_name: &str, key: &PKey<Private>) -> X509 {
    let mut name = X509NameBuilder::new().unwrap();
    name.append_entry_by_text("CN", common_name).unwrap();
    let name = name.build();

    let mut certificate = X509::builder().unwrap();
    certificate.set_version(2).unwrap();
    let serial = BigNum::from_u32(1).unwrap().to_asn1_integer().unwrap();
    certificate.set_serial_number(&serial).unwrap();
    certificate.set_subject_name(&name).unwrap();
    certificate.set_issuer_name(&name).unwrap();
    certificate.set_pubkey(key).unwrap();
    certificate.set_not_before(&Asn1Time::days_from_now(0).unwrap()).unwrap();
    certificate.set_not_after(&Asn1Time::days_from_now(30).unwrap()).unwrap();
    certificate.sign(key, MessageDigest::sha256()).unwrap();
    certificate.build()
}

fn resolver() -> SocketAddress {
    SocketAddress::V4 { ipv4: 0x7f00_0001, port: 853 }
}

#[test]
fn native_certificates_pass_through_unchanged_and_in_order() {
    let first = certificate("first.example", &key());
    let second = certificate("second.example", &key());
    let third = certificate("third.example", &key());
    let expected =
        vec![first.to_der().unwrap(), second.to_der().unwrap(), third.to_der().unwrap()];
    assert_ne!(expected[0], expected[1]);
    assert_ne!(expected[1], expected[2]);

    let mut builder = TlsClientStreamBuilder::<Native>::new();
    builder.add_ca(first);
    builder.add_ca(second);
    builder.add_ca(third);
    let (attempt, mut sender) = builder.build(resolver(), "ns.example".to_string(), ());
    let (attempt, _) = attempt.step(Event::Driven, &mut sender);
    let (attempt, action) = attempt.step(Event::Connected, &mut sender);
    assert_eq!(attempt.phase(), Phase::Handshaking);
    match action {
        Action::Handshake { request } => {
            let presented: Vec<Vec<u8>> =
                request.anchors.iter().map(|ca| ca.to_der().unwrap()).collect();
            assert_eq!(presented, expected);
            assert!(request.identity.is_none());
            assert_eq!(request.peer_name, "ns.example");
        },
        _ => panic!("the handshake was not asked for"),
    }
}

#[test]
fn a_native_identity_is_presented_when_one_was_set() {
    let key = key();
    let certificate = certificate("client.example", &key);
    let archive = Pkcs12::builder()
        .name("client")
        .pkey(&key)
        .cert(&certificate)
        .build2("secret")
        .unwrap()
        .to_der()
        .unwrap();
    let identity = native_tls::Identity::from_pkcs12(&archive, "secret").unwrap();

    let mut builder = TlsClientStreamBuilder::<Native>::new();
    builder.identity(identity);
    let (attempt, mut sender) = builder.build(resolver(), "ns.example".to_string(), ());
    let (attempt, _) = attempt.step(Event::Driven, &mut sender);
    let (_, action) = attempt.step(Event::Connected, &mut sender);
    match action {
        Action::Handshake { request } => {
            assert!(request.anchors.is_empty());
            assert!(request.identity.is_some());
        },
        _ => panic!("the handshake was not asked for"),
    }
}

#[test]
fn a_native_connect_error_is_passed_on_unchanged() {
    let builder = TlsClientStreamBuilder::<Native>::new();
    let (attempt, mut sender) = builder.build(resolver(), "ns.example".to_string(), ());
    let (attempt, _) = attempt.step(Event::Driven, &mut sender);
    let refused = std::io::Error::new(std::io::ErrorKind::ConnectionRefused, "refused");
    let (attempt, action) = attempt.step(Event::ConnectFailed(refused), &mut sender);
    assert_eq!(attempt.phase(), Phase::Failed);
    match action {
        Action::Fail { error: tls_client_stream::EstablishError::Connection(cause) } => {
            assert_eq!(cause.kind(), std::io::ErrorKind::ConnectionRefused);
            assert_eq!(cause.to_string(), "refused");
        },
        _ => panic!("the attempt did not fail with the cause"),
    }
}
