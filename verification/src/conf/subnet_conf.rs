//! A host or network, given by its type and expression.

use vstd::prelude::*;

verus! {

/// A host or network: `typ` says how `exp` reads (`ip` for a single address).
pub struct SubnetConf {
    pub typ: String,
    pub exp: String,
}

} // verus!
