use https_wrapper::bundle::{FileProbe, KeyKind};
use https_wrapper::errors::LoadError;
use https_wrapper::pem::load_pem_certificate;

use openssl::asn1::Asn1Time;
use openssl::hash::MessageDigest;
use openssl::nid::Nid;
use openssl::pkey::{PKey, Private};
use openssl::rsa::Rsa;
use openssl::x509::X509;

fn make_key() -> PKey<Private> {
    let rsa = Rsa::generate(2048).unwrap();
    PKey::from_rsa(rsa).unwrap()
}

fn make_cert(cn: &str, key: &PKey<Private>) -> X509 {
    let mut name = openssl::x509::X509NameBuilder::new().unwrap();
    name.append_entry_by_nid(Nid::COMMONNAME, cn).unwrap();
    let name = name.build();
    let mut b = X509::builder().unwrap();
    b.set_version(2).unwrap();
    b.set_subject_name(&name).unwrap();
    b.set_issuer_name(&name).unwrap();
    b.set_pubkey(key).unwrap();
    b.set_not_before(&Asn1Time::days_from_now(0).unwrap()).unwrap();
    b.set_not_after(&Asn1Time::days_from_now(30).unwrap()).unwrap();
    b.sign(key, MessageDigest::sha256()).unwrap();
    b.build()
}

fn key_pem_pkcs8(key: &PKey<Private>) -> Vec<u8> {
    key.private_key_to_pem_pkcs8().unwrap()
}

#[test]
fn pem_three_blocks_load_in_file_order() {
    let key = make_key();
    let certs = [make_cert("one", &key), make_cert("two", &key), make_cert("three", &key)];
    let mut cert_pem = Vec::new();
    for c in &certs {
        cert_pem.extend_from_slice(&c.to_pem().unwrap());
    }
    let bundle = load_pem_certificate(
        "chain.pem",
        FileProbe::Content(cert_pem),
        "key.pem",
        FileProbe::Content(key_pem_pkcs8(&key)),
    )
    .expect("a valid pair loads");
    assert_eq!(bundle.chain.len(), 3);
    for (i, c) in certs.iter().enumerate() {
        assert_eq!(bundle.chain[i], c.to_der().unwrap());
    }
    assert_eq!(bundle.key.kind, KeyKind::Pkcs8);
    assert_eq!(bundle.key.der, key.private_key_to_pkcs8().unwrap());
}

#[test]
fn pem_zero_certificate_blocks_is_no_certificates_found() {
    let key = make_key();
    let err = load_pem_certificate(
        "chain.pem",
        FileProbe::Content(Vec::new()),
        "key.pem",
        FileProbe::Content(key_pem_pkcs8(&key)),
    )
    .unwrap_err();
    assert_eq!(err, LoadError::NoCertificatesFound);
}

#[test]
fn pem_key_file_without_key_block_is_missing_private_key() {
    let key = make_key();
    let cert_pem = make_cert("leaf", &key).to_pem().unwrap();
    let err = load_pem_certificate(
        "chain.pem",
        FileProbe::Content(cert_pem.clone()),
        "key.pem",
        FileProbe::Content(cert_pem),
    )
    .unwrap_err();
    assert_eq!(err, LoadError::MissingPrivateKey);
}

#[test]
fn pem_malformed_certificate_block_is_malformed_bundle() {
    let key = make_key();
    let bad = b"-----BEGIN CERTIFICATE-----\nnot*base64*at*all\n-----END CERTIFICATE-----\n";
    let err = load_pem_certificate(
        "chain.pem",
        FileProbe::Content(bad.to_vec()),
        "key.pem",
        FileProbe::Content(key_pem_pkcs8(&key)),
    )
    .unwrap_err();
    assert!(matches!(err, LoadError::MalformedBundle(_)), "got {:?}", err);
}

#[test]
fn pem_missing_certificate_file_names_its_path() {
    let key = make_key();
    let err = load_pem_certificate(
        "chain.pem",
        FileProbe::Missing,
        "key.pem",
        FileProbe::Content(key_pem_pkcs8(&key)),
    )
    .unwrap_err();
    assert_eq!(err, LoadError::FileNotFound("chain.pem".to_owned()));
}

#[test]
fn pem_missing_key_file_names_its_path() {
    let key = make_key();
    let cert_pem = make_cert("leaf", &key).to_pem().unwrap();
    let err = load_pem_certificate(
        "chain.pem",
        FileProbe::Content(cert_pem),
        "key.pem",
        FileProbe::Missing,
    )
    .unwrap_err();
    assert_eq!(err, LoadError::FileNotFound("key.pem".to_owned()));
}

#[test]
fn pem_both_files_missing_names_certificate_path_first() {
    let err = load_pem_certificate("chain.pem", FileProbe::Missing, "key.pem", FileProbe::Missing)
        .unwrap_err();
    assert_eq!(err, LoadError::FileNotFound("chain.pem".to_owned()));
}

#[test]
fn pem_missing_key_file_wins_over_unreadable_certificate_file() {
    let err = load_pem_certificate(
        "chain.pem",
        FileProbe::Unreadable("locked".to_owned()),
        "key.pem",
        FileProbe::Missing,
    )
    .unwrap_err();
    assert_eq!(err, LoadError::FileNotFound("key.pem".to_owned()));
}

#[test]
fn pem_unreadable_certificate_file_names_path_and_reason() {
    let key = make_key();
    let err = load_pem_certificate(
        "chain.pem",
        FileProbe::Unreadable("locked".to_owned()),
        "key.pem",
        FileProbe::Content(key_pem_pkcs8(&key)),
    )
    .unwrap_err();
    assert_eq!(err, LoadError::UnreadableFile("chain.pem".to_owned(), "locked".to_owned()));
}

#[test]
fn pem_pkcs1_key_keeps_its_encoding() {
    let rsa = Rsa::generate(2048).unwrap();
    let key = PKey::from_rsa(rsa.clone()).unwrap();
    let cert_pem = make_cert("leaf", &key).to_pem().unwrap();
    let bundle = load_pem_certificate(
        "chain.pem",
        FileProbe::Content(cert_pem),
        "key.pem",
        FileProbe::Content(rsa.private_key_to_pem().unwrap()),
    )
    .unwrap();
    assert_eq!(bundle.key.kind, KeyKind::Pkcs1);
    assert_eq!(bundle.key.der, rsa.private_key_to_der().unwrap());
}

#[test]
fn pem_sec1_key_keeps_its_encoding() {
    let group =
        openssl::ec::EcGroup::from_curve_name(Nid::X9_62_PRIME256V1).unwrap();
    let ec = openssl::ec::EcKey::generate(&group).unwrap();
    let key = PKey::from_ec_key(ec.clone()).unwrap();
    let cert_pem = make_cert("leaf", &key).to_pem().unwrap();
    let bundle = load_pem_certificate(
        "chain.pem",
        FileProbe::Content(cert_pem),
        "key.pem",
        FileProbe::Content(ec.private_key_to_pem().unwrap()),
    )
    .unwrap();
    assert_eq!(bundle.key.kind, KeyKind::Sec1);
    assert_eq!(bundle.key.der, ec.private_key_to_der().unwrap());
}
