pub mod certificate;
pub mod encrypted_extensions;
pub mod extensions;
pub mod grease;
pub mod hello;
pub mod message;
pub mod messages;
