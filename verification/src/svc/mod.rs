//! The services behind the proxy: forwarding plain HTTP requests and
//! tunnelling `CONNECT` requests.

pub mod rerverse;
pub mod tunnal;
