use vstd::prelude::*;
use crate::errors::LoadError;
use crate::paths::{detect_cert_type, spec_extension, spec_is_pem_extension, spec_is_pfx_extension,
    CertType};

verus! {

/// Where the server identity comes from, as resolved from the command line:
/// a PKCS#12 file with an optional password, or a PEM certificate/key file
/// pair. `strict_extension` is set only for the positional invocation mode,
/// where the loader also rejects unexpected extensions; with the named flags
/// the extension is advisory.
#[derive(Debug)]
pub enum CertSource {
    Pfx { path: String, password: Option<String>, strict_extension: bool },
    Pem { cert_path: String, key_path: String },
}

/// How the command-line arguments pick a certificate source. The named flags
/// win: `pfx` selects PKCS#12 with the `password` flag and no extension
/// checking, and `cert` plus `key` select a PEM pair. Otherwise the
/// positional `certificate` path selects the format by its extension; for
/// PKCS#12 the second positional argument is the password, for PEM it is the
/// key path and must be present. No source at all is an error.
pub open spec fn resolve_post(
    certificate: Option<Seq<char>>,
    password_or_key: Option<Seq<char>>,
    pfx: Option<Seq<char>>,
    cert: Option<Seq<char>>,
    key: Option<Seq<char>>,
    password: Option<Seq<char>>,
    r: Result<CertSource, LoadError>,
) -> bool {
    match pfx {
        Some(p) => r matches Ok(CertSource::Pfx { path, password: pw, strict_extension })
            && path@ == p && pw.deep_view() == password && !strict_extension,
        None => match cert {
            Some(c) => match key {
                Some(k) => r matches Ok(CertSource::Pem { cert_path, key_path }) && cert_path@ == c
                    && key_path@ == k,
                None => r == Err::<CertSource, LoadError>(LoadError::MissingKeyPath),
            },
            None => match certificate {
                Some(cp) => match spec_extension(cp) {
                    None => r == Err::<CertSource, LoadError>(LoadError::MissingExtension),
                    Some(e) => if spec_is_pfx_extension(e) {
                        r matches Ok(CertSource::Pfx { path, password: pw, strict_extension })
                            && path@ == cp && pw.deep_view() == password_or_key
                            && strict_extension
                    } else if spec_is_pem_extension(e) {
                        match password_or_key {
                            Some(kp) => r matches Ok(CertSource::Pem { cert_path, key_path })
                                && cert_path@ == cp && key_path@ == kp,
                            None => r == Err::<CertSource, LoadError>(LoadError::MissingKeyPath),
                        }
                    } else {
                        r matches Err(LoadError::UnsupportedExtension(x)) && x@
                            == crate::paths::spec_lower(e)
                    },
                },
                None => r == Err::<CertSource, LoadError>(LoadError::NoSourceSpecified),
            },
        },
    }
}

/// Resolve the command-line arguments to a certificate source. The
/// parameters mirror the arguments: the two positionals (`certificate` and
/// `password_or_key`) and the named flags (`pfx`, `cert`, `key`,
/// `password`).
pub fn resolve_source(
    certificate: Option<String>,
    password_or_key: Option<String>,
    pfx: Option<String>,
    cert: Option<String>,
    key: Option<String>,
    password: Option<String>,
) -> (r: Result<CertSource, LoadError>)
    ensures
        resolve_post(
            certificate.deep_view(),
            password_or_key.deep_view(),
            pfx.deep_view(),
            cert.deep_view(),
            key.deep_view(),
            password.deep_view(),
            r,
        ),
{
    match pfx {
        Some(path) => Ok(CertSource::Pfx { path, password, strict_extension: false }),
        None => match cert {
            Some(cert_path) => match key {
                Some(key_path) => Ok(CertSource::Pem { cert_path, key_path }),
                None => Err(LoadError::MissingKeyPath),
            },
            None => match certificate {
                Some(cert_path) => match detect_cert_type(cert_path.as_str()) {
                    Ok(CertType::Pfx) => Ok(
                        CertSource::Pfx {
                            path: cert_path,
                            password: password_or_key,
                            strict_extension: true,
                        },
                    ),
                    Ok(CertType::Pem) => match password_or_key {
                        Some(key_path) => Ok(CertSource::Pem { cert_path, key_path }),
                        None => Err(LoadError::MissingKeyPath),
                    },
                    Err(e) => Err(e),
                },
                None => Err(LoadError::NoSourceSpecified),
            },
        },
    }
}

} // verus!
