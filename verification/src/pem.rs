use vstd::prelude::*;
use rustls_pki_types::PrivateKeyDer;
use crate::bundle::{CertificateBundle, FileProbe, KeyKind, PrivateKey};
use crate::errors::LoadError;

verus! {

/// What parsing a byte string as a sequence of PEM certificate blocks
/// yields: `None` when some block is malformed, otherwise the DER contents
/// of every certificate block in file order. This depends on the bytes
/// alone.
pub uninterp spec fn pem_cert_blocks(data: Seq<u8>) -> Option<Seq<Seq<u8>>>;

/// What parsing a byte string for one PEM private-key block yields: `None`
/// when some block is malformed, `Some(None)` when no key block is present,
/// and otherwise the first key's encoding and DER contents. This depends on
/// the bytes alone.
pub uninterp spec fn pem_key_block(data: Seq<u8>) -> Option<Option<(KeyKind, Seq<u8>)>>;

/// Relies on rustls_pemfile's `certs`: yields the DER contents of every PEM
/// certificate block in the input in order, skipping blocks of other kinds,
/// or an error for a malformed block.
#[verifier::external_body]
fn pem_certs_from_bytes(data: &[u8]) -> (r: Result<Vec<Vec<u8>>, String>)
    ensures
        r is Ok <==> pem_cert_blocks(data@) is Some,
        r matches Ok(v) ==> pem_cert_blocks(data@) matches Some(blocks) && v.deep_view() == blocks,
{
    let mut rd: &[u8] = data;
    match rustls_pemfile::certs(&mut rd).collect::<Result<Vec<_>, _>>() {
        Ok(certs) => Ok(certs.into_iter().map(|c| c.as_ref().to_vec()).collect()),
        Err(e) => Err(format!("{}", e)),
    }
}

/// Relies on rustls_pemfile's `private_key`: returns the first PEM
/// private-key block (PKCS#1, PKCS#8 or SEC1) in the input, `None` when
/// there is none, or an error for a malformed block.
#[verifier::external_body]
fn pem_key_from_bytes(data: &[u8]) -> (r: Result<Option<PrivateKey>, String>)
    ensures
        r is Ok <==> pem_key_block(data@) is Some,
        r matches Ok(k) ==> pem_key_block(data@) matches Some(t) && (k is Some <==> t is Some) && (
        k matches Some(pk) ==> t matches Some(tt) && pk.kind == tt.0 && pk.der@ == tt.1),
{
    let mut rd: &[u8] = data;
    match rustls_pemfile::private_key(&mut rd) {
        Ok(None) => Ok(None),
        Ok(Some(PrivateKeyDer::Pkcs1(k))) => Ok(
            Some(PrivateKey { kind: KeyKind::Pkcs1, der: k.secret_pkcs1_der().to_vec() }),
        ),
        Ok(Some(PrivateKeyDer::Pkcs8(k))) => Ok(
            Some(PrivateKey { kind: KeyKind::Pkcs8, der: k.secret_pkcs8_der().to_vec() }),
        ),
        Ok(Some(PrivateKeyDer::Sec1(k))) => Ok(
            Some(PrivateKey { kind: KeyKind::Sec1, der: k.secret_sec1_der().to_vec() }),
        ),
        Ok(Some(_)) => Err("unsupported private key encoding".to_owned()),
        Err(e) => Err(format!("{}", e)),
    }
}

/// What the PEM loader promises: both files must exist (checked in that
/// order, each failure naming its path) and be readable; the certificate
/// file must parse and hold at least one certificate block; the key file
/// must parse and hold a private-key block. A loaded bundle carries exactly
/// the certificate blocks in file order and the first key, in whatever
/// encoding the parser produced.
pub open spec fn pem_load_post(
    cert_path: Seq<char>,
    cert_file: FileProbe,
    key_path: Seq<char>,
    key_file: FileProbe,
    r: Result<CertificateBundle, LoadError>,
) -> bool {
    match cert_file {
        FileProbe::Missing => r matches Err(LoadError::FileNotFound(p)) && p@ == cert_path,
        FileProbe::Unreadable(why) => match key_file {
            FileProbe::Missing => r matches Err(LoadError::FileNotFound(p)) && p@ == key_path,
            _ => r matches Err(LoadError::UnreadableFile(p, w)) && p@ == cert_path && w@ == why@,
        },
        FileProbe::Content(cd) => match key_file {
            FileProbe::Missing => r matches Err(LoadError::FileNotFound(p)) && p@ == key_path,
            FileProbe::Unreadable(why) => match pem_cert_blocks(cd@) {
                None => r matches Err(LoadError::MalformedBundle(_)),
                Some(blocks) => if blocks.len() == 0 {
                    r == Err::<CertificateBundle, LoadError>(LoadError::NoCertificatesFound)
                } else {
                    r matches Err(LoadError::UnreadableFile(p, w)) && p@ == key_path && w@ == why@
                },
            },
            FileProbe::Content(kd) => match pem_cert_blocks(cd@) {
                None => r matches Err(LoadError::MalformedBundle(_)),
                Some(blocks) => if blocks.len() == 0 {
                    r == Err::<CertificateBundle, LoadError>(LoadError::NoCertificatesFound)
                } else {
                    match pem_key_block(kd@) {
                        None => r matches Err(LoadError::MalformedBundle(_)),
                        Some(None) => r == Err::<CertificateBundle, LoadError>(
                            LoadError::MissingPrivateKey,
                        ),
                        Some(Some(t)) => r matches Ok(b) && b.chain.deep_view() == blocks
                            && b.chain@.len() > 0 && b.key.kind == t.0 && b.key.der@ == t.1,
                    }
                },
            },
        },
    }
}

/// Load a server identity from a PEM certificate-chain file and a PEM
/// private-key file. The caller reads both files and hands the outcomes in;
/// the decisions are made here. The key is left in whatever DER encoding the
/// parser produced.
pub fn load_pem_certificate(
    cert_path: &str,
    cert_file: FileProbe,
    key_path: &str,
    key_file: FileProbe,
) -> (r: Result<CertificateBundle, LoadError>)
    ensures
        pem_load_post(cert_path@, cert_file, key_path@, key_file, r),
{
    let cert_data = match cert_file {
        FileProbe::Missing => {
            return Err(LoadError::FileNotFound(cert_path.to_owned()));
        },
        FileProbe::Unreadable(why) => match key_file {
            FileProbe::Missing => {
                return Err(LoadError::FileNotFound(key_path.to_owned()));
            },
            _ => {
                return Err(LoadError::UnreadableFile(cert_path.to_owned(), why));
            },
        },
        FileProbe::Content(cd) => cd,
    };
    let key_data = match key_file {
        FileProbe::Missing => {
            return Err(LoadError::FileNotFound(key_path.to_owned()));
        },
        FileProbe::Unreadable(why) => {
            let chain = match pem_certs_from_bytes(cert_data.as_slice()) {
                Ok(chain) => chain,
                Err(e) => {
                    return Err(LoadError::MalformedBundle(e));
                },
            };
            if chain.len() == 0 {
                return Err(LoadError::NoCertificatesFound);
            }
            return Err(LoadError::UnreadableFile(key_path.to_owned(), why));
        },
        FileProbe::Content(kd) => kd,
    };
    let chain = match pem_certs_from_bytes(cert_data.as_slice()) {
        Ok(chain) => chain,
        Err(e) => {
            return Err(LoadError::MalformedBundle(e));
        },
    };
    if chain.len() == 0 {
        return Err(LoadError::NoCertificatesFound);
    }
    let key = match pem_key_from_bytes(key_data.as_slice()) {
        Ok(Some(key)) => key,
        Ok(None) => {
            return Err(LoadError::MissingPrivateKey);
        },
        Err(e) => {
            return Err(LoadError::MalformedBundle(e));
        },
    };
    Ok(CertificateBundle { chain, key })
}

} // verus!
