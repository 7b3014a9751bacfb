//! Renews a TLS certificate that is kept in an Azure KeyVault, through the ACME v2 protocol.

pub mod acme;
pub mod azure;
pub mod crypto;
pub mod deploy_cert_to_cdn;
pub mod encoding;
pub mod error;
pub mod function_host;
pub mod function_worker;
pub mod http_common;
pub mod json;
pub mod log2;
pub mod pem;
pub mod renew_cert;
pub mod text;
pub mod time2;
pub mod update_cdn_cert;
