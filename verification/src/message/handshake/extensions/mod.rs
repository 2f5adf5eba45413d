pub mod alpn;
pub mod app_settings;
pub mod authorities;
pub mod client;
pub mod compress_algo;
pub mod ech;
pub mod ecpf;
pub mod extension;
pub mod key_share;
pub mod oid_filter;
pub mod pskke;
pub mod renegotiation_info;
pub mod sct;
pub mod server;
pub mod session_ticket;
pub mod sig_algo_cert;
pub mod sig_scheme;
pub mod sni;
pub mod status_request;
pub mod sup_groups;
pub mod sup_versions;
