use vstd::prelude::*;

verus! {

/// The private-key encodings the decoders can produce.
#[derive(Debug, Clone, Copy, PartialEq, Eq, Structural)]
pub enum KeyKind {
    /// PKCS#1 DER (an RSA key).
    Pkcs1,
    /// SEC1 DER (an EC key).
    Sec1,
    /// PKCS#8 DER, the normalized form.
    Pkcs8,
}

/// A DER-encoded private key together with the encoding it is in.
#[derive(Debug)]
pub struct PrivateKey {
    pub kind: KeyKind,
    pub der: Vec<u8>,
}

/// The normalized in-memory server identity: DER-encoded certificates, leaf
/// first and chain certificates after it in discovery order, plus one
/// DER-encoded private key. Built once at startup and consumed by the TLS
/// identity builder; never mutated.
///
/// The decoders do not re-check the material they hand over: the PEM loader
/// guarantees a non-empty chain, but a PKCS#12 container holding no
/// certificates decodes to an empty chain, and the key's DER payload is
/// whatever the source held. An unusable identity is rejected when the TLS
/// configuration is built from it, or at handshake time.
#[derive(Debug)]
pub struct CertificateBundle {
    pub chain: Vec<Vec<u8>>,
    pub key: PrivateKey,
}

/// What reading a file produced. The library itself performs no I/O: the
/// caller probes and reads each file and hands the outcome in, and the
/// loaders decide what it means.
#[derive(Debug)]
pub enum FileProbe {
    /// The file does not exist.
    Missing,
    /// The file exists but could not be read; the reason is carried.
    Unreadable(String),
    /// The file's full contents.
    Content(Vec<u8>),
}

/// The chain a PKCS#12 bundle yields: the end-entity certificate first when
/// one is present, then the chain certificates in the order the container
/// lists them.
pub open spec fn spec_chain(leaf: Option<Seq<u8>>, ca: Seq<Seq<u8>>) -> Seq<Seq<u8>> {
    match leaf {
        Some(l) => seq![l] + ca,
        None => ca,
    }
}

/// Place the optional end-entity certificate ahead of the chain
/// certificates, preserving their order.
pub fn build_chain(leaf: Option<Vec<u8>>, ca: Vec<Vec<u8>>) -> (chain: Vec<Vec<u8>>)
    ensures
        chain.deep_view() == spec_chain(leaf.deep_view(), ca.deep_view()),
{
    match leaf {
        Some(l) => {
            let ghost leaf_der = l.deep_view();
            let ghost ca_ders = ca.deep_view();
            let mut chain: Vec<Vec<u8>> = Vec::new();
            chain.push(l);
            let mut rest = ca;
            chain.append(&mut rest);
            proof {
                assert(chain.deep_view() =~= seq![leaf_der] + ca_ders);
            }
            chain
        },
        None => ca,
    }
}

} // verus!
