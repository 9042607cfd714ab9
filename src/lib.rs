//! Time codes, track kinds and error classification for reading
//! compressed optical-disc images from a scripting host.
pub mod compare;
pub mod errors;
pub mod kinds;
pub mod msf;
pub mod text;
