pub mod bundle;
pub mod errors;
pub mod paths;
pub mod loader;
pub mod pem;
pub mod pkcs12;
pub mod relay;
pub mod source;
pub mod tls;
