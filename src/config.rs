use vstd::prelude::*;

verus! {

/// The port listened on when none is given.
pub const DEFAULT_PORT: u16 = 3000;

/// The server's settings, fixed at startup: the static root and the port.
pub struct ServerConfig {
    pub static_dir: String,
    pub port: u16,
}

impl ServerConfig {
    pub fn new(static_dir: String, port: Option<u16>) -> (r: ServerConfig)
        ensures
            r.static_dir@ == static_dir@,
            r.port == match port {
                Some(p) => p,
                None => DEFAULT_PORT,
            },
    {
        let port = match port {
            Some(p) => p,
            None => DEFAULT_PORT,
        };
        ServerConfig { static_dir, port }
    }
}

} // verus!
