//! XML namespaces of the XMPP protocol.
use vstd::prelude::*;

verus! {

pub const CLIENT: &'static str = "jabber:client";
pub const SERVER: &'static str = "jabber:server";
pub const STREAM: &'static str = "http://etherx.jabber.org/streams";
pub const TLS: &'static str = "urn:ietf:params:xml:ns:xmpp-tls";
pub const SASL: &'static str = "urn:ietf:params:xml:ns:xmpp-sasl";
pub const BIND: &'static str = "urn:ietf:params:xml:ns:xmpp-bind";
pub const SESSION: &'static str = "urn:ietf:params:xml:ns:xmpp-session";
pub const STANZAS: &'static str = "urn:ietf:params:xml:ns:xmpp-stanzas";
pub const STREAMS_ERRORS: &'static str = "urn:ietf:params:xml:ns:xmpp-streams";
pub const PING: &'static str = "urn:xmpp:ping";
pub const XML_URI: &'static str = "http://www.w3.org/XML/1998/namespace";

} // verus!
