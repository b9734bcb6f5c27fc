//! Certificates and keys, and socket addresses as text.

pub mod cert;
pub mod net;
