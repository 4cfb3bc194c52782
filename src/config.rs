use vstd::prelude::*;

verus! {

/// Immutable description of one upstream proxy server.
pub struct ServerConfig {
    /// Address of the server, `host:port`.
    pub addr: String,
    /// Idle timeout of the server in seconds, also used as the keep-alive
    /// interval of client sockets relayed through it.
    pub timeout_secs: Option<u64>,
}

impl ServerConfig {
    pub fn new(addr: String, timeout_secs: Option<u64>) -> (r: ServerConfig)
        ensures
            r.addr@ == addr@,
            r.timeout_secs == timeout_secs,
    {
        ServerConfig { addr, timeout_secs }
    }

    /// Two descriptors describe the same server.
    pub open spec fn same_as(&self, other: &ServerConfig) -> bool {
        self.addr@ == other.addr@ && self.timeout_secs == other.timeout_secs
    }

    /// A field-by-field copy.
    pub fn duplicate(&self) -> (r: ServerConfig)
        ensures
            r.same_as(self),
    {
        ServerConfig { addr: self.addr.clone(), timeout_secs: self.timeout_secs }
    }

    pub fn addr(&self) -> (r: &str)
        ensures
            r@ == self.addr@,
    {
        self.addr.as_str()
    }

    pub fn timeout(&self) -> (r: Option<u64>)
        ensures
            r == self.timeout_secs,
    {
        self.timeout_secs
    }
}

} // verus!
