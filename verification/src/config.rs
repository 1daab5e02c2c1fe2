//! Startup decisions around the external collaborators: which of the
//! candidate configuration files to use, and the address the server binds.
//! Reading the files, parsing the YAML and running the server are the
//! collaborators' work; this module only decides.

use vstd::prelude::*;
use crate::numfmt::{dec_seq, fmt_u32};

verus! {

/// The fixed port the server listens on; not configurable in the current
/// scope.
pub const SERVER_PORT: u16 = 8080;

/// Picks the configuration source: the candidate paths are tried in order
/// and the first successful read wins. `attempts` holds, in candidate
/// order, the content of each path that could be read. Returns the index
/// of the winning candidate, or nothing when every read failed.
pub fn first_readable(attempts: &Vec<Option<String>>) -> (r: Option<usize>)
    ensures
        match r {
            Some(i) => i < attempts@.len() && attempts@[i as int] is Some && (forall|j: int|
                0 <= j < i ==> attempts@[j] is None),
            None => forall|j: int| 0 <= j < attempts@.len() ==> attempts@[j] is None,
        },
{
    let mut k: usize = 0;
    while k < attempts.len()
        invariant
            k <= attempts@.len(),
            forall|j: int| 0 <= j < k ==> attempts@[j] is None,
        decreases attempts@.len() - k,
    {
        if attempts[k].is_some() {
            return Some(k);
        }
        k += 1;
    }
    None
}

/// The address the listener binds: every interface, at the given port.
pub fn listen_address(port: u16) -> (addr: String)
    ensures
        addr@ == "0.0.0.0:"@ + dec_seq(port as nat),
{
    let mut s = String::from_str("0.0.0.0:");
    let p = fmt_u32(port as u32);
    s.append(p.as_str());
    s
}

} // verus!
