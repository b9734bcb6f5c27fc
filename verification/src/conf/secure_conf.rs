//! Access control settings.

use vstd::prelude::*;
use crate::conf::subnet_conf::SubnetConf;

verus! {

/// Peers on the white list are served without authorization.
pub struct SecureConf {
    pub whitelists: Vec<SubnetConf>,
}

} // verus!
