use https_wrapper::bundle::{FileProbe, KeyKind};
use https_wrapper::errors::LoadError;
use https_wrapper::loader::load_certificate;
use https_wrapper::pkcs12::parse_pfx_bytes;

use openssl::asn1::Asn1Time;
use openssl::hash::MessageDigest;
use openssl::nid::Nid;
use openssl::pkcs12::Pkcs12;
use openssl::pkey::{PKey, Private};
use openssl::rsa::Rsa;
use openssl::stack::Stack;
use openssl::x509::X509;

fn make_key() -> PKey<Private> {
    let rsa = Rsa::generate(2048).unwrap();
    PKey::from_rsa(rsa).unwrap()
}

fn make_cert(cn: &str, key: &PKey<Private>) -> X509 {
    let mut name = openssl::x509::X509NameBuilder::new().unwrap();
    name.append_entry_by_nid(Nid::COMMONNAME, cn).unwrap();
    let name = name.build();
    let mut b = X509::builder().unwrap();
    b.set_version(2).unwrap();
    b.set_subject_name(&name).unwrap();
    b.set_issuer_name(&name).unwrap();
    b.set_pubkey(key).unwrap();
    b.set_not_before(&Asn1Time::days_from_now(0).unwrap()).unwrap();
    b.set_not_after(&Asn1Time::days_from_now(30).unwrap()).unwrap();
    b.sign(key, MessageDigest::sha256()).unwrap();
    b.build()
}

fn make_pfx(password: &str) -> (Vec<u8>, X509, X509, PKey<Private>) {
    let key = make_key();
    let leaf = make_cert("leaf", &key);
    let ca_key = make_key();
    let ca_cert = make_cert("intermediate", &ca_key);
    let mut stack = Stack::new().unwrap();
    stack.push(ca_cert.clone()).unwrap();
    let mut b = Pkcs12::builder();
    b.name("test identity");
    b.pkey(&key);
    b.cert(&leaf);
    b.ca(stack);
    let pfx = b.build2(password).unwrap();
    (pfx.to_der().unwrap(), leaf, ca_cert, key)
}

#[test]
fn pfx_decode_leaf_first_and_key_roundtrips() {
    let (der, leaf, ca_cert, key) = make_pfx("hunter2");
    let bundle = parse_pfx_bytes(&der, "hunter2").expect("a valid bundle decodes");
    assert_eq!(bundle.chain.len(), 2);
    assert_eq!(bundle.chain[0], leaf.to_der().unwrap());
    assert_eq!(bundle.chain[1], ca_cert.to_der().unwrap());
    assert_eq!(bundle.key.kind, KeyKind::Pkcs8);
    assert_eq!(bundle.key.der, key.private_key_to_pkcs8().unwrap());
}

#[test]
fn pfx_empty_password_on_protected_bundle_is_password_required() {
    let (der, _, _, _) = make_pfx("hunter2");
    let err = parse_pfx_bytes(&der, "").unwrap_err();
    assert!(matches!(err, LoadError::PasswordRequired(_)), "got {:?}", err);
}

#[test]
fn pfx_wrong_password_is_invalid_password() {
    let (der, _, _, _) = make_pfx("hunter2");
    let err = parse_pfx_bytes(&der, "not-the-password").unwrap_err();
    assert!(matches!(err, LoadError::InvalidPassword(_)), "got {:?}", err);
}

#[test]
fn pfx_empty_input_is_malformed() {
    let err = parse_pfx_bytes(&[], "").unwrap_err();
    assert!(matches!(err, LoadError::MalformedBundle(_)), "got {:?}", err);
}

#[test]
fn pfx_garbage_input_is_malformed() {
    let err = parse_pfx_bytes(b"this is not a PKCS#12 container", "pw").unwrap_err();
    assert!(matches!(err, LoadError::MalformedBundle(_)), "got {:?}", err);
}

#[test]
fn pfx_without_private_key_is_missing_private_key() {
    let key = make_key();
    let leaf = make_cert("leaf", &key);
    let mut b = Pkcs12::builder();
    b.cert(&leaf);
    let der = b.build2("pw").unwrap().to_der().unwrap();
    let err = parse_pfx_bytes(&der, "pw").unwrap_err();
    assert_eq!(err, LoadError::MissingPrivateKey);
}

#[test]
fn pfx_without_certificates_still_yields_the_key() {
    // The decoder checks nothing about chain length: a bundle holding only a
    // key decodes to an empty chain, and the mismatch surfaces later, at TLS
    // configuration time.
    let key = make_key();
    let mut b = Pkcs12::builder();
    b.pkey(&key);
    let der = b.build2("pw").unwrap().to_der().unwrap();
    let bundle = parse_pfx_bytes(&der, "pw").unwrap();
    assert!(bundle.chain.is_empty());
    assert_eq!(bundle.key.der, key.private_key_to_pkcs8().unwrap());
}

#[test]
fn load_certificate_missing_file_names_path() {
    let err = load_certificate("server.pfx", FileProbe::Missing, None, true).unwrap_err();
    assert_eq!(err, LoadError::FileNotFound("server.pfx".to_owned()));
}

#[test]
fn load_certificate_unreadable_file_names_path_and_reason() {
    let err = load_certificate(
        "server.pfx",
        FileProbe::Unreadable("permission denied".to_owned()),
        None,
        false,
    )
    .unwrap_err();
    assert_eq!(
        err,
        LoadError::UnreadableFile("server.pfx".to_owned(), "permission denied".to_owned())
    );
}

#[test]
fn load_certificate_empty_file_is_empty_file() {
    let err = load_certificate("server.pfx", FileProbe::Content(Vec::new()), None, true)
        .unwrap_err();
    assert_eq!(err, LoadError::EmptyFile);
}

#[test]
fn load_certificate_strict_mode_rejects_txt_extension() {
    let (der, _, _, _) = make_pfx("pw");
    let err =
        load_certificate("bundle.txt", FileProbe::Content(der), Some("pw"), true).unwrap_err();
    assert_eq!(err, LoadError::UnsupportedExtension("txt".to_owned()));
}

#[test]
fn load_certificate_named_mode_accepts_same_bytes_despite_extension() {
    let (der, leaf, _, _) = make_pfx("pw");
    let bundle =
        load_certificate("bundle.txt", FileProbe::Content(der), Some("pw"), false).unwrap();
    assert_eq!(bundle.chain[0], leaf.to_der().unwrap());
}

#[test]
fn load_certificate_checks_existence_before_extension() {
    let err = load_certificate("bundle.txt", FileProbe::Missing, None, true).unwrap_err();
    assert_eq!(err, LoadError::FileNotFound("bundle.txt".to_owned()));
}

#[test]
fn load_certificate_strict_mode_reports_extension_lower_cased() {
    let err = load_certificate("bundle.TXT", FileProbe::Content(vec![1u8]), None, true)
        .unwrap_err();
    assert_eq!(err, LoadError::UnsupportedExtension("txt".to_owned()));
}

#[test]
fn load_certificate_checks_extension_before_emptiness() {
    let err = load_certificate("bundle.txt", FileProbe::Content(Vec::new()), None, true)
        .unwrap_err();
    assert_eq!(err, LoadError::UnsupportedExtension("txt".to_owned()));
}

#[test]
fn load_certificate_strict_mode_accepts_upper_case_pfx_extension() {
    let (der, _, _, _) = make_pfx("pw");
    assert!(load_certificate("BUNDLE.PFX", FileProbe::Content(der), Some("pw"), true).is_ok());
}

#[test]
fn load_certificate_strict_mode_accepts_path_without_extension() {
    let (der, _, _, _) = make_pfx("pw");
    assert!(load_certificate("bundle", FileProbe::Content(der), Some("pw"), true).is_ok());
}
