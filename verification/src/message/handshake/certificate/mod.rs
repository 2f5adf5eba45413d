pub mod certificate;
pub mod compressed;
pub mod verify;
pub mod request;
