use vstd::prelude::*;

verus! {

/// Address the HTTP server binds to.
#[derive(Debug)]
pub struct ServerConfig {
    pub host: String,
    pub port: i32,
}

} // verus!
