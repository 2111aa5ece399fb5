use vstd::prelude::*;
use std::sync::Arc;
use rustls_pki_types::{CertificateDer, PrivateKeyDer};
use crate::bundle::{CertificateBundle, KeyKind, PrivateKey};
use crate::errors::LoadError;

verus! {

#[verifier::external_type_specification]
#[verifier::external_body]
pub struct ExServerConfig(tokio_rustls::rustls::ServerConfig);

/// Whether the TLS stack accepts this chain and key as a server identity;
/// this depends on the DER bytes and the key's encoding alone.
pub uninterp spec fn tls_identity_ok(chain: Seq<Seq<u8>>, kind: KeyKind, key: Seq<u8>) -> bool;

/// Relies on rustls' `ServerConfig::builder_with_provider` with the ring
/// provider, `with_safe_default_protocol_versions`, `with_no_client_auth`
/// and `with_single_cert`: builds a server configuration that presents the
/// given chain and key as its sole identity and asks for no client
/// certificates. The provider is pinned, so the pair is accepted or rejected
/// by its bytes alone.
#[verifier::external_body]
fn rustls_single_cert_config(chain: Vec<Vec<u8>>, key: PrivateKey) -> (r: Result<
    tokio_rustls::rustls::ServerConfig,
    String,
>)
    ensures
        r is Ok <==> tls_identity_ok(chain.deep_view(), key.kind, key.der@),
{
    let certs: Vec<CertificateDer<'static>> =
        chain.into_iter().map(CertificateDer::from).collect();
    let key_der = match key.kind {
        KeyKind::Pkcs1 => PrivateKeyDer::Pkcs1(key.der.into()),
        KeyKind::Sec1 => PrivateKeyDer::Sec1(key.der.into()),
        KeyKind::Pkcs8 => PrivateKeyDer::Pkcs8(key.der.into()),
    };
    let provider = Arc::new(tokio_rustls::rustls::crypto::ring::default_provider());
    tokio_rustls::rustls::ServerConfig::builder_with_provider(provider)
        .with_safe_default_protocol_versions()
        .and_then(|b| b.with_no_client_auth().with_single_cert(certs, key_der))
        .map_err(|e| format!("{}", e))
}

/// Turn a certificate bundle into the immutable server TLS configuration
/// that every connection will share: the bundle is the server's sole
/// identity and clients are not asked for certificates. A pair the TLS stack
/// rejects is a fatal `TlsConfigError`.
pub fn build_tls_identity(bundle: CertificateBundle) -> (r: Result<
    tokio_rustls::rustls::ServerConfig,
    LoadError,
>)
    ensures
        r is Ok <==> tls_identity_ok(bundle.chain.deep_view(), bundle.key.kind, bundle.key.der@),
        r matches Err(e) ==> e matches LoadError::TlsConfigError(_),
{
    match rustls_single_cert_config(bundle.chain, bundle.key) {
        Ok(config) => Ok(config),
        Err(e) => Err(LoadError::TlsConfigError(e)),
    }
}

} // verus!
