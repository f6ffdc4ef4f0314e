use vstd::prelude::*;

verus! {

/// The fixed host and port on which an already-running instance of the
/// companion process accepts connections. It is used only for the
/// liveness probe, never for actual communication, and stays constant
/// for the whole run.
pub struct Endpoint {
    pub host: String,
    pub port: u16,
}

impl Endpoint {
    /// An endpoint for the given host and port.
    pub fn new(host: String, port: u16) -> (e: Endpoint)
        ensures
            e.host@ == host@,
            e.port == port,
    {
        Endpoint { host, port }
    }
}

/// The launch strategy's injected configuration: the primary command,
/// the fallback command tried when the primary executable is
/// unavailable, and the arguments both are started with.
pub struct LaunchConfig {
    pub primary: String,
    pub fallback: String,
    pub args: Vec<String>,
}

impl LaunchConfig {
    /// A configuration with the given commands and shared arguments.
    pub fn new(primary: String, fallback: String, args: Vec<String>) -> (c: LaunchConfig)
        ensures
            c.primary@ == primary@,
            c.fallback@ == fallback@,
            c.args@ == args@,
    {
        LaunchConfig { primary, fallback, args }
    }
}

} // verus!
