use vstd::prelude::*;

verus! {

/// Everything that can go wrong while turning operator-supplied certificate
/// material into a usable server identity. All of these are fatal at
/// startup: the process cannot serve without a valid identity.
#[derive(Debug, PartialEq, Eq)]
pub enum LoadError {
    /// The named file does not exist.
    FileNotFound(String),
    /// The named file exists but could not be read; the second field carries
    /// the reason reported by the operating system.
    UnreadableFile(String, String),
    /// The certificate file exists but holds no bytes.
    EmptyFile,
    /// The file's extension (carried here) is outside the set the selected
    /// format accepts.
    UnsupportedExtension(String),
    /// The certificate path has no extension to infer a format from.
    MissingExtension,
    /// The container or a PEM section could not be parsed, or a certificate
    /// or key could not be re-encoded; the reason is carried.
    MalformedBundle(String),
    /// Decrypting the bundle failed and no password was supplied; a password
    /// is probably required.
    PasswordRequired(String),
    /// Decrypting the bundle failed with the supplied non-empty password.
    InvalidPassword(String),
    /// The bundle or key file holds no private key.
    MissingPrivateKey,
    /// The PEM certificate file holds no certificate blocks.
    NoCertificatesFound,
    /// No certificate source was given at all.
    NoSourceSpecified,
    /// A positional PEM source names no key file.
    MissingKeyPath,
    /// The TLS stack rejected the chain/key pair; the reason is carried.
    TlsConfigError(String),
}

} // verus!
