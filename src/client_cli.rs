//! Settings of the stand-alone client that addresses its server by host and
//! port.
use vstd::prelude::*;
use crate::client::{join_trimmed, joined};

verus! {

pub struct Cli {
    pub address: String,
    pub port: String,
    pub key: Option<String>,
    pub text: Vec<String>,
}

impl Cli {
    /// The server's URL: the address, a colon, the port.
    pub fn endpoint(&self) -> (r: String)
        ensures
            r@ == self.address@ + ":"@ + self.port@,
    {
        let mut out = self.address.clone();
        out.append(":");
        out.append(self.port.as_str());
        out
    }

    /// The request text: the words, trimmed and joined by spaces.
    pub fn text(&self) -> (r: String)
        ensures
            r@ == joined(self.text@),
    {
        join_trimmed(&self.text)
    }
}

} // verus!
