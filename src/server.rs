//! The settings of the preview server.

use vstd::prelude::*;

verus! {

/// Serves a built site from `static_dir` on `host:port`.
pub struct DevServer {
    pub static_dir: String,
    pub port: u16,
    pub host: String,
}

impl DevServer {
    pub fn new(static_dir: String, port: u16, host: String) -> (r: Self)
        ensures
            r.static_dir == static_dir,
            r.port == port,
            r.host == host,
    {
        Self { static_dir, port, host }
    }
}

} // verus!
