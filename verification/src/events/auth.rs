//! SASL PLAIN authentication requests.
use vstd::prelude::*;
use vstd::utf8::encode_utf8;
use crate::config::XMPPConfig;
use crate::credentials::Credentials;
use crate::element::{XmlElement, ElementView, attrs_set, plain_name, qname, spec_empty_element};
use crate::jid::{JidView, spec_jid_text};
use crate::ns;
use crate::plain::{plain_initial, base64_encode, base64_text};
use crate::events::kinds::EventError;
use crate::events::interface::{Event, NonStanzaEvent, EventView, NonStanzaEventView};

verus! {

pub struct Auth {
    config: XMPPConfig,
    credentials: Credentials,
}

/// The username a JID authenticates with: its node, or its whole text when it has none.
pub open spec fn spec_sasl_username(j: JidView) -> Seq<char> {
    match j.node {
        Some(n) => n,
        None => spec_jid_text(j),
    }
}

/// The element of an authentication request:
/// `<auth xmlns='urn:ietf:params:xml:ns:xmpp-sasl' mechanism='PLAIN'>` holding the base64
/// text of the PLAIN initial response.
pub open spec fn spec_auth_element(jid: JidView, password: Seq<char>) -> ElementView {
    let bytes = seq![0u8] + encode_utf8(spec_sasl_username(jid)) + seq![0u8] + encode_utf8(password);
    ElementView {
        attrs: attrs_set(Seq::empty(), plain_name("mechanism"@), "PLAIN"@),
        text: base64_text(bytes),
        ..spec_empty_element(qname(Some(ns::SASL@), "auth"@))
    }
}

impl Auth {
    pub fn new(config: &XMPPConfig, credentials: Credentials) -> (r: Auth)
        ensures
            r.jid() == credentials.jid@,
            r.password() == credentials.password@,
    {
        Auth { config: config.copy(), credentials }
    }

    /// The JID the request authenticates.
    pub closed spec fn jid(&self) -> JidView {
        self.credentials.jid@
    }

    /// The password the request carries.
    pub closed spec fn password(&self) -> Seq<char> {
        self.credentials.password@
    }

    /// Reads a request out of an element: the element is not read and the default
    /// credentials are taken; this never fails.
    pub fn from_element(e: XmlElement) -> (r: Result<Auth, EventError>)
        ensures
            r matches Ok(a) && a.jid() == crate::credentials::guest_jid() && a.password() == "guest"@,
    {
        Ok(Auth { config: XMPPConfig::new(), credentials: Credentials::default() })
    }

    /// The element of this request.
    pub fn to_element(&self) -> (r: XmlElement)
        ensures
            r@ == spec_auth_element(self.jid(), self.password()),
    {
        let mut element = XmlElement::new(Some(ns::SASL), "auth");
        let username = match &self.credentials.jid.node {
            Some(n) => n.clone(),
            None => self.credentials.jid.to_string(),
        };
        let bytes = plain_initial(username.as_str(), self.credentials.password.as_str());
        let plain = base64_encode(bytes.as_slice());
        element.set_attr("mechanism", "PLAIN");
        element.set_text(plain.as_str());
        element
    }

    pub fn copy(&self) -> (r: Auth)
        ensures
            r.jid() == self.jid(),
            r.password() == self.password(),
    {
        Auth { config: self.config.copy(), credentials: self.credentials.copy() }
    }

    pub fn to_event(&self) -> (r: Event)
        ensures
            r@ == EventView::NonStanza(NonStanzaEventView::Auth(self.jid(), self.password()), Seq::empty()),
    {
        Event::NonStanza(Box::new(NonStanzaEvent::AuthEvent(Box::new(self.copy()))), String::new())
    }
}

} // verus!
