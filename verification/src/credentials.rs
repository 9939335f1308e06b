//! The identity and secret an entity authenticates with.
use vstd::prelude::*;
use crate::jid::{Jid, JidView, spec_parse_jid};

verus! {

#[derive(Clone, Debug, PartialEq, Eq)]
pub struct Credentials {
    pub jid: Jid,
    pub password: String,
}

/// The JID a default credential holds, as read from `guest`.
pub open spec fn guest_jid() -> JidView {
    spec_parse_jid("guest"@)
}

impl Credentials {
    /// A copy of these credentials.
    pub fn copy(&self) -> (r: Credentials)
        ensures
            r.jid@ == self.jid@,
            r.password@ == self.password@,
    {
        Credentials { jid: self.jid.copy(), password: self.password.clone() }
    }

    /// Both the JID and the password are equal.
    pub fn same_as(&self, other: &Credentials) -> (r: bool)
        ensures
            r == (self.jid@ == other.jid@ && self.password@ == other.password@),
    {
        self.jid.same_as(&other.jid) && self.password == other.password
    }
}

impl Default for Credentials {
    fn default() -> (r: Credentials)
        ensures
            r.jid@ == guest_jid(),
            r.password@ == "guest"@,
    {
        Credentials { jid: Jid::from_full_jid("guest"), password: "guest".to_owned() }
    }
}

} // verus!
