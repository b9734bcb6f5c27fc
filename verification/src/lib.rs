//! Policy and message logic of a forwarding/tunnelling HTTP proxy server.

pub mod text;
pub mod header;
pub mod error;
pub mod uri;
pub mod conf;
pub mod svc;
pub mod proxier;
pub mod util;
