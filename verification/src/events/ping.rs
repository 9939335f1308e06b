//! Ping requests (XEP-0199).
use vstd::prelude::*;
use crate::element::{XmlElement, ElementView, attrs_set, plain_name, qname, spec_empty_element, find_child};
use crate::jid::{Jid, ToJid, spec_jid_text};
use crate::ns;
use crate::xml::{write_xml, xml_text};
use crate::events::kinds::{EventError, IqType, spec_iq_type_text};
use crate::events::generic::{GenericIq, GenericIqView, spec_iq_element, spec_iq_from_element, spec_iq_from_text, attrs_set_jid};
use crate::events::interface::{Event, StanzaEvent, IqEvent, EventView, StanzaEventView, IqEventView};

verus! {

pub struct Ping {
    pub generic: GenericIq,
}

/// The ping child: `<ping xmlns='urn:xmpp:ping'/>`.
pub open spec fn spec_ping_child() -> ElementView {
    spec_empty_element(qname(Some(ns::PING@), "ping"@))
}

/// The element of a ping: the IQ element with a ping child, unless it is a result.
pub open spec fn spec_ping_element(v: GenericIqView) -> ElementView {
    let e = spec_iq_element(v);
    match v.iq_type {
        IqType::Result => e,
        _ => ElementView { children: e.children.push(spec_ping_child()), ..e },
    }
}

/// The element `Ping::to_string` writes: `<iq type='..' id='..' from='..' to='..'>`, with a
/// ping child unless it is a result.
pub open spec fn spec_ping_text_element(v: GenericIqView) -> ElementView {
    let a1 = attrs_set(Seq::empty(), plain_name("type"@), spec_iq_type_text(v.iq_type));
    let a2 = attrs_set(a1, plain_name("id"@), v.id);
    let a3 = attrs_set_jid(a2, "from"@, v.from);
    let a4 = attrs_set_jid(a3, "to"@, v.to);
    let e = ElementView { attrs: a4, ..spec_empty_element(plain_name("iq"@)) };
    match v.iq_type {
        IqType::Result => e,
        _ => ElementView { children: e.children.push(spec_ping_child()), ..e },
    }
}

/// What `Ping::from_element` reads out of an element: an IQ, which, when a get, holds a
/// ping child and, when a result, holds no child.
pub open spec fn spec_ping_from_element(e: ElementView) -> Result<GenericIqView, EventError> {
    match spec_iq_from_element(e) {
        Ok(v) => match v.iq_type {
            IqType::Get => if find_child(e, qname(Some(ns::PING@), "ping"@)) is Some {
                Ok(v)
            } else {
                Err(EventError::InvalidInput)
            },
            IqType::Result => if e.children.len() > 0 {
                Err(EventError::InvalidInput)
            } else {
                Ok(v)
            },
            _ => Ok(v),
        },
        Err(x) => Err(x),
    }
}

impl Ping {
    /// A ping request from `from` to `to`, with a fresh identifier.
    pub fn new<F: ToJid, T: ToJid>(from: &F, to: &T) -> (r: Ping)
        requires
            from.spec_to_jid() is Ok,
            to.spec_to_jid() is Ok,
        ensures
            r.generic@.iq_type == IqType::Get,
            r.generic@.from == Some(from.spec_to_jid()->Ok_0),
            r.generic@.to == Some(to.spec_to_jid()->Ok_0),
            r.generic@.element is None,
            r.generic@.id.len() == 36,
    {
        let id = GenericIq::unique_id();
        let mut generic = GenericIq::new(id.as_str(), IqType::Get);
        let _ = generic.set_from(Some(from));
        let _ = generic.set_to(Some(to));
        Ping { generic }
    }

    /// Reads a ping out of its text: the text must hold an IQ.
    pub fn from_str(s: &str) -> (r: Result<Ping, EventError>)
        ensures
            match (r, spec_iq_from_text(s@)) {
                (Ok(p), Ok(v)) => p.generic@ == v,
                (Err(x), Err(y)) => x == y,
                _ => false,
            },
    {
        match GenericIq::from_str(s) {
            Ok(generic) => Ok(Ping { generic }),
            Err(e) => Err(e),
        }
    }

    /// Reads a ping out of an element.
    pub fn from_element(e: XmlElement) -> (r: Result<Ping, EventError>)
        ensures
            match (r, spec_ping_from_element(e@)) {
                (Ok(p), Ok(v)) => p.generic@ == v,
                (Err(x), Err(y)) => x == y,
                _ => false,
            },
    {
        let found = e.find(Some(ns::PING), "ping").is_some();
        let count = e.child_count();
        let generic = match GenericIq::from_element(e) {
            Ok(g) => g,
            Err(err) => return Err(err),
        };
        match generic.get_type() {
            IqType::Get => {
                if !found {
                    return Err(EventError::InvalidInput);
                }
            },
            IqType::Result => {
                if count > 0 {
                    return Err(EventError::InvalidInput);
                }
            },
            _ => {},
        }
        Ok(Ping { generic })
    }

    /// The element of this ping.
    pub fn to_element(&self) -> (r: XmlElement)
        ensures
            r@ == spec_ping_element(self.generic@),
    {
        let mut element = self.generic.to_element();
        match self.generic.get_type() {
            IqType::Result => {},
            _ => {
                element.append_child(XmlElement::new(Some(ns::PING), "ping"));
            },
        }
        element
    }

    /// The text of this ping.
    pub fn to_string(&self) -> (r: String)
        ensures
            r@ == xml_text(spec_ping_text_element(self.generic@)),
    {
        let mut root = XmlElement::new(None, "iq");
        let t = self.generic.get_type().to_string();
        root.set_attr("type", t.as_str());
        root.set_attr("id", self.generic.get_id());
        match self.generic.get_from() {
            Some(from) => {
                let f = from.to_string();
                root.set_attr("from", f.as_str());
            },
            None => {},
        }
        match self.generic.get_to() {
            Some(to) => {
                let f = to.to_string();
                root.set_attr("to", f.as_str());
            },
            None => {},
        }
        match self.generic.get_type() {
            IqType::Result => {},
            _ => {
                root.append_child(XmlElement::new(Some(ns::PING), "ping"));
            },
        }
        write_xml(&root)
    }

    pub fn get_id(&self) -> (r: &str)
        ensures
            r@ == self.generic@.id,
    {
        self.generic.get_id()
    }

    pub fn set_id(&mut self, id: &str)
        ensures
            final(self).generic@ == (GenericIqView { id: id@, ..old(self).generic@ }),
    {
        self.generic.set_id(id);
    }

    pub fn get_type(&self) -> (r: IqType)
        ensures
            r == self.generic@.iq_type,
    {
        self.generic.get_type()
    }

    pub fn set_type(&mut self, iq_type: IqType)
        ensures
            final(self).generic@ == (GenericIqView { iq_type: iq_type, ..old(self).generic@ }),
    {
        let _ = self.generic.set_type(iq_type);
    }

    pub fn get_to(&self) -> (r: Option<&Jid>)
        ensures
            match r {
                Some(j) => self.generic@.to == Some(j@),
                None => self.generic@.to is None,
            },
    {
        self.generic.get_to()
    }

    pub fn get_from(&self) -> (r: Option<&Jid>)
        ensures
            match r {
                Some(j) => self.generic@.from == Some(j@),
                None => self.generic@.from is None,
            },
    {
        self.generic.get_from()
    }

    /// Sets the recipient; `None` is refused and leaves the ping as it was.
    pub fn set_to<T: ToJid>(&mut self, jid: Option<&T>) -> (r: Result<(), EventError>)
        ensures
            match jid {
                Some(t) => match t.spec_to_jid() {
                    Ok(v) => r is Ok && final(self).generic@ == (GenericIqView { to: Some(v), ..old(self).generic@ }),
                    Err(_) => r == Err::<(), EventError>(EventError::InvalidInput) && final(self).generic@ == old(self).generic@,
                },
                None => r == Err::<(), EventError>(EventError::InvalidInput) && final(self).generic@ == old(self).generic@,
            },
    {
        match self.generic.set_to(jid) {
            Ok(_) => Ok(()),
            Err(e) => Err(e),
        }
    }

    /// Sets the sender; `None` is refused and leaves the ping as it was.
    pub fn set_from<T: ToJid>(&mut self, jid: Option<&T>) -> (r: Result<(), EventError>)
        ensures
            match jid {
                Some(t) => match t.spec_to_jid() {
                    Ok(v) => r is Ok && final(self).generic@ == (GenericIqView { from: Some(v), ..old(self).generic@ }),
                    Err(_) => r == Err::<(), EventError>(EventError::InvalidInput) && final(self).generic@ == old(self).generic@,
                },
                None => r == Err::<(), EventError>(EventError::InvalidInput) && final(self).generic@ == old(self).generic@,
            },
    {
        match self.generic.set_from(jid) {
            Ok(_) => Ok(()),
            Err(e) => Err(e),
        }
    }

    pub fn copy(&self) -> (r: Ping)
        ensures
            r.generic@ == self.generic@,
    {
        Ping { generic: self.generic.copy() }
    }

    /// The event of a ping: a response when it is a result, an IQ event of any other type otherwise.
    pub fn to_event(&self) -> (r: Event)
        ensures
            r@ == (if self.generic@.iq_type == IqType::Result {
                EventView::Stanza(StanzaEventView::IqResponse(IqEventView::Ping(self.generic@)), Seq::empty())
            } else {
                EventView::Stanza(StanzaEventView::Iq(IqEventView::Ping(self.generic@)), Seq::empty())
            }),
    {
        match self.generic.get_type() {
            IqType::Result => Event::Stanza(
                Box::new(StanzaEvent::IqResponseEvent(Box::new(IqEvent::PingEvent(self.copy())))),
                String::new(),
            ),
            _ => Event::Stanza(
                Box::new(StanzaEvent::IqEvent(Box::new(IqEvent::PingEvent(self.copy())))),
                String::new(),
            ),
        }
    }
}

impl Default for Ping {
    fn default() -> (r: Ping)
        ensures
            r.generic@.iq_type == IqType::Get,
            r.generic@.to is None,
            r.generic@.from is None,
            r.generic@.element is None,
            r.generic@.id.len() == 36,
    {
        let id = GenericIq::unique_id();
        Ping { generic: GenericIq::new(id.as_str(), IqType::Get) }
    }
}

} // verus!
