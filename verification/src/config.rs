//! General configuration of an XMPP entity.
use vstd::prelude::*;

verus! {

/// The domain a fresh configuration holds.
pub const DOMAIN: &'static str = "example.com";

/// Define a struct to hold general configuration information needed by xmpp
///
#[derive(Clone, Debug)]
pub struct XMPPConfig {
    domain: String,
}

impl XMPPConfig {
    /// The configured domain, as characters.
    pub closed spec fn domain(&self) -> Seq<char> {
        self.domain@
    }

    /// Return a fresh instance of an XMPPConfig
    pub fn new() -> (r: XMPPConfig)
        ensures
            r.domain() == DOMAIN@,
    {
        XMPPConfig { domain: DOMAIN.to_owned() }
    }

    /// Define the xmpp domain
    pub fn set_domain(self, v: &str) -> (r: Self)
        ensures
            r.domain() == v@,
    {
        let mut s = self;
        s.domain = v.to_owned();
        s
    }

    /// Return the configured domain
    pub fn get_domain(&self) -> (r: &str)
        ensures
            r@ == self.domain(),
    {
        self.domain.as_str()
    }

    /// A copy of this configuration.
    pub fn copy(&self) -> (r: XMPPConfig)
        ensures
            r.domain() == self.domain(),
    {
        XMPPConfig { domain: self.domain.clone() }
    }
}

impl Default for XMPPConfig {
    fn default() -> (r: XMPPConfig)
        ensures
            r.domain() == DOMAIN@,
    {
        XMPPConfig::new()
    }
}

} // verus!
