//! Upstream proxies that tunnels and forwarded requests may go through.

use vstd::prelude::*;

pub mod superior_conf;

verus! {

/// The configured upstream ("superior") proxies.
pub struct TunnalConf {
    pub superiors: Vec<superior_conf::SuperiorConf>,
}


impl TunnalConf {
    /// The position of the first upstream proxy with the identifier `id`.
    pub fn find_superior(&self, id: &String) -> (res: Option<usize>)
        ensures
            match res {
                Some(i) => i < self.superiors@.len() && self.superiors@[i as int].id@ == id@
                    && forall|j: int| 0 <= j < i ==> (#[trigger] self.superiors@[j]).id@ != id@,
                None => forall|j: int| 0 <= j < self.superiors@.len() ==> (#[trigger] self.superiors@[j]).id@ != id@,
            },
    {
        let n = self.superiors.len();
        let mut i: usize = 0;
        while i < n
            invariant
                n == self.superiors@.len(),
                i <= n,
                forall|j: int| 0 <= j < i ==> (#[trigger] self.superiors@[j]).id@ != id@,
            decreases n - i,
        {
            if self.superiors[i].id == *id {
                return Some(i);
            }
            i = i + 1;
        }
        None
    }
}

} // verus!
