//! Stream events that carry no data: the end of a stream, TLS and SASL steps, and text that
//! is not understood.
use vstd::prelude::*;
use crate::config::XMPPConfig;
use crate::element::{XmlElement, ElementView, qname, spec_empty_element};
use crate::ns;
use crate::events::kinds::EventError;
use crate::events::interface::{Event, NonStanzaEvent, EventView, NonStanzaEventView};

verus! {

#[derive(Clone, Debug)]
pub struct CloseStream {}

impl CloseStream {
    pub fn new() -> (r: CloseStream) {
        CloseStream {}
    }

    /// The event of the end of a stream.
    pub fn to_event(&self) -> (r: Event)
        ensures
            r@ == EventView::NonStanza(NonStanzaEventView::CloseStream, Seq::empty()),
    {
        Event::NonStanza(Box::new(NonStanzaEvent::CloseStreamEvent), String::new())
    }
}

impl Default for CloseStream {
    fn default() -> (r: CloseStream) {
        CloseStream::new()
    }
}

#[derive(Clone, Debug)]
pub struct ProceedTls {}

impl ProceedTls {
    pub fn new(config: &XMPPConfig) -> (r: ProceedTls) {
        ProceedTls {}
    }

    /// Reads the answer to a TLS request; its text carries nothing, this never fails.
    pub fn from_str(s: &str) -> (r: Result<ProceedTls, EventError>)
        ensures
            r is Ok,
    {
        Ok(ProceedTls {})
    }

    pub fn to_event(&self) -> (r: Event)
        ensures
            r@ == EventView::NonStanza(NonStanzaEventView::ProceedTls, Seq::empty()),
    {
        Event::NonStanza(Box::new(NonStanzaEvent::ProceedTlsEvent(Box::new(ProceedTls {}))), String::new())
    }
}

#[derive(Clone, Debug)]
pub struct SuccessTls {}

impl SuccessTls {
    pub fn new(config: &XMPPConfig) -> (r: SuccessTls) {
        SuccessTls {}
    }

    /// Reads a success answer; its text carries nothing, this never fails.
    pub fn from_str(s: &str) -> (r: Result<SuccessTls, EventError>)
        ensures
            r is Ok,
    {
        Ok(SuccessTls {})
    }

    pub fn copy(&self) -> (r: SuccessTls) {
        SuccessTls {}
    }

    pub fn to_event(&self) -> (r: Event)
        ensures
            r@ == EventView::NonStanza(NonStanzaEventView::SuccessTls, Seq::empty()),
    {
        Event::NonStanza(Box::new(NonStanzaEvent::SuccessTlsEvent(Box::new(SuccessTls {}))), String::new())
    }
}

#[derive(Clone, Debug)]
pub struct StartTls {
    config: XMPPConfig,
}

/// The element of a TLS request: `<starttls xmlns='urn:ietf:params:xml:ns:xmpp-tls'/>`.
pub open spec fn spec_start_tls_element() -> ElementView {
    spec_empty_element(qname(Some(ns::TLS@), "starttls"@))
}

impl StartTls {
    /// The domain of the configuration the request was made with.
    pub closed spec fn domain(&self) -> Seq<char> {
        self.config.domain()
    }

    pub fn new(config: &XMPPConfig) -> (r: StartTls)
        ensures
            r.domain() == config.domain(),
    {
        StartTls { config: config.copy() }
    }

    pub fn to_element(&self) -> (r: XmlElement)
        ensures
            r@ == spec_start_tls_element(),
    {
        XmlElement::new(Some(ns::TLS), "starttls")
    }

    pub fn copy(&self) -> (r: StartTls)
        ensures
            r.domain() == self.domain(),
    {
        StartTls { config: self.config.copy() }
    }

    pub fn to_event(&self) -> (r: Event)
        ensures
            r@ == EventView::NonStanza(NonStanzaEventView::StartTls, Seq::empty()),
    {
        Event::NonStanza(Box::new(NonStanzaEvent::StartTlsEvent(Box::new(self.copy()))), String::new())
    }
}

#[derive(Clone, Debug)]
pub struct Unknown {}

impl Unknown {
    pub fn new(config: &XMPPConfig) -> (r: Unknown) {
        Unknown {}
    }

    /// Any text is an unknown event; this never fails.
    pub fn from_str(s: &str) -> (r: Result<Unknown, EventError>)
        ensures
            r is Ok,
    {
        Ok(Unknown {})
    }

    /// An unknown event is written as nothing.
    pub fn to_string(&self) -> (r: String)
        ensures
            r@ == Seq::<char>::empty(),
    {
        String::new()
    }
}

} // verus!
