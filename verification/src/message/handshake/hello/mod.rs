pub mod cipher_suite;
pub mod compression_method;
pub mod client;
pub mod server;
