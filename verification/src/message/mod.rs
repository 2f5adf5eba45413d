pub mod alert;
pub mod handshake;
pub mod record;
pub mod serialize;
pub mod version;
