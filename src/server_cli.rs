//! Settings of the stand-alone server that binds a host and port.
use vstd::prelude::*;

verus! {

pub struct Cli {
    pub config: String,
    pub address: String,
    pub port: String,
    pub key: Option<String>,
}

impl Cli {
    /// The address to bind: the host, a colon, the port.
    pub fn endpoint(&self) -> (r: String)
        ensures
            r@ == self.address@ + ":"@ + self.port@,
    {
        let mut out = self.address.clone();
        out.append(":");
        out.append(self.port.as_str());
        out
    }
}

} // verus!
