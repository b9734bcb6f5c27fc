//! A user name and password accepted by the proxy.

use vstd::prelude::*;

verus! {

/// A user name and password accepted in `Basic` authorization.
pub struct CredentialConf {
    pub user: String,
    pub passwd: String,
}

} // verus!
