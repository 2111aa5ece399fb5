use vstd::prelude::*;
use openssl::error::ErrorStack;
use openssl::pkcs12::Pkcs12;
use crate::bundle::{build_chain, spec_chain, CertificateBundle, KeyKind, PrivateKey};
use crate::errors::LoadError;

verus! {

/// Whether a byte string parses as the outer PKCS#12 container structure;
/// this depends on the bytes alone.
pub uninterp spec fn pfx_structure_ok(data: Seq<u8>) -> bool;

/// What a parsed PKCS#12 container yields for a password: `None` when the
/// contents do not decrypt with that password (or a decrypted part cannot be
/// re-encoded), otherwise the end-entity certificate's DER when one is
/// present, every chain certificate's DER in container order, and the
/// private key re-encoded to PKCS#8 DER when one is present. This depends on
/// the container bytes and the password alone.
pub uninterp spec fn pfx_parts(data: Seq<u8>, pwd: Seq<char>) -> Option<(Option<Seq<u8>>, Seq<Seq<u8>>, Option<Seq<u8>>)>;

/// How decoding a PKCS#12 container can end.
pub enum PfxOutcome {
    /// The outer container structure did not parse; the reason is carried.
    BadStructure(String),
    /// The container parsed but its contents did not decrypt with the
    /// password, or a decrypted part could not be re-encoded; the reason is
    /// carried.
    NotDecrypted(String),
    /// The container's parts: the optional end-entity certificate's DER, the
    /// chain certificates' DER in container order, and the optional private
    /// key as PKCS#8 DER.
    Decoded(Option<Vec<u8>>, Vec<Vec<u8>>, Option<Vec<u8>>),
}

/// Relies on openssl's `Pkcs12::from_der`, `Pkcs12Ref::parse2`,
/// `X509Ref::to_der` and `PKeyRef::private_key_to_pkcs8`: parsing the outer
/// container, decrypting its contents with the password and re-encoding the
/// parts to DER succeed or fail by the container bytes and the password
/// alone. `parse2` builds a C string from the password, so the password must
/// hold no NUL character.
#[verifier::external_body]
fn pkcs12_decode_raw(data: &[u8], password: &str) -> (r: PfxOutcome)
    requires
        !password@.contains('\0'),
    ensures
        r is BadStructure <==> !pfx_structure_ok(data@),
        r is Decoded <==> (pfx_structure_ok(data@) && pfx_parts(data@, password@) is Some),
        r matches PfxOutcome::Decoded(leaf, ca, key) ==> (pfx_parts(data@, password@)
            matches Some(t) && leaf.deep_view() == t.0 && ca.deep_view() == t.1
            && key.deep_view() == t.2),
{
    let p12 = match Pkcs12::from_der(data) {
        Ok(p) => p,
        Err(e) => return PfxOutcome::BadStructure(format!("{e}")),
    };
    let p = match p12.parse2(password) {
        Ok(p) => p,
        Err(e) => return PfxOutcome::NotDecrypted(format!("{e}")),
    };
    let ca: Result<Vec<_>, ErrorStack> = p.ca.into_iter().flatten().map(|c| c.to_der()).collect();
    match (p.cert.map(|c| c.to_der()).transpose(), ca, p.pkey.map(|k| k.private_key_to_pkcs8()).transpose()) {
        (Ok(l), Ok(c), Ok(k)) => PfxOutcome::Decoded(l, c, k),
        _ => PfxOutcome::NotDecrypted("re-encoding to DER failed".to_owned()),
    }
}

/// What the PKCS#12 decoder promises of its outcome on input `data` with
/// password `pwd`: empty or structurally bad input is a malformed bundle; a
/// decryption failure is `PasswordRequired` exactly when no password was
/// supplied and `InvalidPassword` otherwise; a decrypted container without a
/// private key is `MissingPrivateKey`; and a decoded bundle carries exactly
/// the container's certificates — end-entity first, then the chain in
/// container order — and its key re-encoded to PKCS#8.
pub open spec fn pfx_decode_post(
    data: Seq<u8>,
    pwd: Seq<char>,
    r: Result<CertificateBundle, LoadError>,
) -> bool {
    if data.len() == 0 || !pfx_structure_ok(data) {
        r matches Err(LoadError::MalformedBundle(_))
    } else {
        match pfx_parts(data, pwd) {
            None => if pwd.len() == 0 {
                r matches Err(LoadError::PasswordRequired(_))
            } else {
                r matches Err(LoadError::InvalidPassword(_))
            },
            Some(t) => match t.2 {
                None => r == Err::<CertificateBundle, LoadError>(LoadError::MissingPrivateKey),
                Some(kd) => r matches Ok(b) && b.chain.deep_view() == spec_chain(t.0, t.1)
                    && b.key.kind == KeyKind::Pkcs8 && b.key.der@ == kd,
            },
        }
    }
}

/// Decode a password-protected PKCS#12 archive. The chain carries the
/// end-entity certificate first, then every chain certificate in container
/// order; the private key is re-encoded to PKCS#8 DER whatever its original
/// form. A decryption failure with an empty password is reported as
/// `PasswordRequired`, with a non-empty one as `InvalidPassword`. The
/// password may not hold a NUL character: the underlying decryption call
/// aborts on one.
pub fn parse_pfx_bytes(data: &[u8], password: &str) -> (r: Result<CertificateBundle, LoadError>)
    requires
        !password@.contains('\0'),
    ensures
        pfx_decode_post(data@, password@, r),
{
    if data.len() == 0 {
        return Err(LoadError::MalformedBundle("empty PFX data provided".to_owned()));
    }
    match pkcs12_decode_raw(data, password) {
        PfxOutcome::BadStructure(e) => Err(LoadError::MalformedBundle(e)),
        PfxOutcome::NotDecrypted(e) => {
            if password.is_empty() {
                Err(LoadError::PasswordRequired(e))
            } else {
                Err(LoadError::InvalidPassword(e))
            }
        },
        PfxOutcome::Decoded(leaf, ca, key) => match key {
            None => Err(LoadError::MissingPrivateKey),
            Some(k) => {
                proof {
                    assert(k@ =~= k.deep_view());
                }
                let chain = build_chain(leaf, ca);
                Ok(CertificateBundle { chain, key: PrivateKey { kind: KeyKind::Pkcs8, der: k } })
            },
        },
    }
}

} // verus!
