//! A rule that rewrites the target of forwarded requests.

use vstd::prelude::*;

verus! {

/// Requests whose path matches the regular expression `matcher` are sent to
/// `proxy_pass`; when `replace_re` is not empty, its matches in the path are
/// replaced by `replace_to`.
pub struct ProxyPassLocationConf {
    pub matcher: String,
    pub proxy_pass: String,
    pub replace_re: String,
    pub replace_to: String,
}

} // verus!
