use async_socket::setup::SetupError;
use async_socket::utils::client_helper::keep_anchor;
use async_socket::utils::client_helper::Anchor;
use async_socket::utils::client_helper::ClientConfig;
use async_socket::utils::client_helper::TrustRoots;
use async_socket::utils::server_helper::ServerConfig;
use openssl::asn1::Asn1Time;
use openssl::bn::BigNum;
use openssl::hash::MessageDigest;
use openssl::pkey::PKey;
use openssl::pkey::Private;
use openssl::rsa::Rsa;
use openssl::x509::extension::BasicConstraints;
use openssl::x509::X509NameBuilder;
use openssl::x509::X509;
use std::io::ErrorKind;
use std::path::PathBuf;

fn self_signed(common_name: &str) -> (X509, PKey<Private>) {
    let key = PKey::from_rsa(Rsa::generate(2048).unwrap()).unwrap();
    let mut name = X509NameBuilder::new().unwrap();
    name.append_entry_by_text("CN", common_name).unwrap();
    let name = name.build();
    let mut builder = X509::builder().unwrap();
    builder.set_version(2).unwrap();
    let serial = BigNum::from_u32(7).unwrap().to_asn1_integer().unwrap();
    builder.set_serial_number(&serial).unwrap();
    builder.set_subject_name(&name).unwrap();
    builder.set_issuer_name(&name).unwrap();
    builder.set_pubkey(&key).unwrap();
    builder.set_not_before(&Asn1Time::days_from_now(0).unwrap()).unwrap();
    builder.set_not_after(&Asn1Time::days_from_now(365).unwrap()).unwrap();
    builder.append_extension(BasicConstraints::new().critical().ca().build().unwrap()).unwrap();
    builder.sign(&key, MessageDigest::sha256()).unwrap();
    (builder.build(), key)
}

fn with_file() -> ClientConfig {
    ClientConfig::from_args("127.0.0.1".to_string(), 5000, Some(PathBuf::from("keys/rootCA.crt")))
}

#[test]
fn without_a_file_the_built_in_roots_are_trusted() {
    let config = ClientConfig::from_args("127.0.0.1".to_string(), 5000, None);
    assert!(matches!(config.get_root_cert_store(b""), Ok(TrustRoots::BuiltIn)));
    assert!(matches!(
        config.get_root_cert_store(b"-----BEGIN CERTIFICATE-----\nAQID\n"),
        Ok(TrustRoots::BuiltIn)
    ));
}

#[test]
fn the_certificates_of_the_file_become_anchors_in_order() {
    let (first, _) = self_signed("first.example");
    let (second, _) = self_signed("second.example");
    let mut pem = first.to_pem().unwrap();
    pem.extend_from_slice(&second.to_pem().unwrap());
    let anchors = match with_file().get_root_cert_store(&pem) {
        Ok(TrustRoots::Anchors(anchors)) => anchors,
        other => panic!("unexpected result: {:?}", other),
    };
    assert_eq!(anchors.len(), 2);
    for (anchor, cert) in anchors.iter().zip([&first, &second]) {
        let der = cert.to_der().unwrap();
        let expected = webpki::TrustAnchor::try_from_cert_der(&der).unwrap();
        assert_eq!(&anchor.subject[..], expected.subject);
        assert_eq!(&anchor.spki[..], expected.spki);
        assert_eq!(anchor.name_constraints.as_deref(), expected.name_constraints);
        assert!(!anchor.subject.is_empty());
        assert!(!anchor.spki.is_empty());
    }
    assert_ne!(anchors[0].subject, anchors[1].subject);
}

#[test]
fn a_file_without_certificates_gives_no_anchors() {
    match with_file().get_root_cert_store(b"") {
        Ok(TrustRoots::Anchors(anchors)) => assert!(anchors.is_empty()),
        other => panic!("unexpected result: {:?}", other),
    }
}

#[test]
fn a_certificate_that_is_no_certificate_is_refused() {
    let r = with_file().get_root_cert_store(
        b"-----BEGIN CERTIFICATE-----\nAQID\n-----END CERTIFICATE-----\n",
    );
    assert!(matches!(r, Err(SetupError::InvalidCertificate)));
    let (good, _) = self_signed("good.example");
    let mut pem = good.to_pem().unwrap();
    pem.extend_from_slice(b"-----BEGIN CERTIFICATE-----\nAQID\n-----END CERTIFICATE-----\n");
    let r = with_file().get_root_cert_store(&pem);
    assert!(matches!(r, Err(SetupError::InvalidCertificate)));
}

#[test]
fn a_malformed_file_of_trusted_certificates_keeps_its_error() {
    match with_file().get_root_cert_store(b"-----BEGIN CERTIFICATE-----\nAQID\n") {
        Err(SetupError::TrustUnreadable(e)) => {
            assert_eq!(e.kind(), ErrorKind::InvalidData);
            assert_eq!(SetupError::TrustUnreadable(e).kind(), None);
        }
        other => panic!("unexpected result: {:?}", other),
    }
}

#[test]
fn an_anchor_that_was_read_is_kept_and_one_that_was_not_is_refused() {
    let mut anchors = Vec::new();
    let a = Anchor { subject: vec![1], spki: vec![2, 3], name_constraints: None };
    assert!(keep_anchor(&mut anchors, Some(a)).is_ok());
    assert_eq!(anchors.len(), 1);
    assert_eq!(anchors[0].spki, vec![2u8, 3]);
    assert!(matches!(keep_anchor(&mut anchors, None), Err(SetupError::InvalidCertificate)));
    assert_eq!(anchors.len(), 1);
    let b = Anchor { subject: vec![4], spki: vec![5], name_constraints: Some(vec![6]) };
    assert!(keep_anchor(&mut anchors, Some(b)).is_ok());
    assert_eq!(anchors.len(), 2);
    assert_eq!(anchors[1].subject, vec![4u8]);
    assert_eq!(anchors[1].name_constraints, Some(vec![6u8]));
}

#[test]
fn real_material_of_a_server_is_taken_out_of_its_files() {
    let (cert, key) = self_signed("10.100.1.3");
    let cert_pem = cert.to_pem().unwrap();
    let key_pem = key.private_key_to_pem_pkcs8().unwrap();
    let m = ServerConfig::load_cert_and_key(&cert_pem, &key_pem).unwrap();
    assert_eq!(m.certs, vec![cert.to_der().unwrap()]);
    assert_eq!(m.key, key.private_key_to_pkcs8().unwrap());
    let rsa_pem = key.rsa().unwrap().private_key_to_pem().unwrap();
    assert!(matches!(
        ServerConfig::load_cert_and_key(&cert_pem, &rsa_pem),
        Err(SetupError::KeyNotPkcs8)
    ));
}
