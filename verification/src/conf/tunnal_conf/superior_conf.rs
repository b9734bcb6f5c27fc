//! An upstream proxy.

use vstd::prelude::*;
use crate::uri::UriParts;

verus! {

/// An upstream proxy, its address and its optional credentials.
pub struct SuperiorConf {
    pub id: String,
    pub uri: UriParts,
    pub username: Option<String>,
    pub password: Option<String>,
}

} // verus!
