//! Service configuration: the host and port the composition root binds to.
//! Loading values from the process environment is the composition root's
//! job; this module only holds the values and renders the bind address.

use vstd::prelude::*;
use crate::digits::{append_dec, dec_chars};

verus! {

/// Host and port for the request front end.
pub struct Config {
    pub server_host: String,
    pub server_port: u16,
}

impl Config {
    /// The bind address, rendered as `host:port`.
    pub fn server_address(&self) -> (r: String)
        ensures
            r@ == self.server_host@ + seq![':'] + dec_chars(self.server_port as int),
    {
        let mut s = String::from_str(self.server_host.as_str());
        s.append(":");
        proof {
            reveal_strlit(":");
            assert(s@ =~= self.server_host@ + seq![':']);
        }
        append_dec(&mut s, self.server_port as u64);
        s
    }
}

} // verus!
