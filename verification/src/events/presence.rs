//! Presence stanzas.
use vstd::prelude::*;
use crate::element::{XmlElement, ElementView, attr_value, attrs_set, plain_name, spec_empty_element};
use crate::jid::{Jid, JidView, ToJid, spec_parse_jid};
use crate::xml::{parse_xml, write_xml, xml_parse, xml_text};
use crate::events::kinds::{EventError, PresenceType, spec_presence_type_from, spec_presence_type_text};
use crate::events::generic::{opt_jid_view, opt_jid_copy, attr_or_empty, get_attr_or_empty};
use crate::events::interface::{Event, StanzaEvent, EventView, StanzaEventView};

verus! {

pub struct PresenceView {
    pub to: Option<JidView>,
    pub from: Option<JidView>,
    pub presence_type: Option<PresenceType>,
}

pub struct Presence {
    to: Option<Jid>,
    from: Option<Jid>,
    presence_type: Option<PresenceType>,
}

impl View for Presence {
    type V = PresenceView;

    closed spec fn view(&self) -> PresenceView {
        PresenceView { to: opt_jid_view(self.to), from: opt_jid_view(self.from), presence_type: self.presence_type }
    }
}

/// The element of a presence: `<presence type='..'/>`, the type only when there is one.
pub open spec fn spec_presence_element(v: PresenceView) -> ElementView {
    ElementView {
        attrs: match v.presence_type {
            Some(t) => attrs_set(Seq::empty(), plain_name("type"@), spec_presence_type_text(t)),
            None => Seq::empty(),
        },
        ..spec_empty_element(plain_name("presence"@))
    }
}

/// What `Presence::from_parsed` reads out of a document: a `type` attribute must name a
/// presence type; `to` and `from` are read, from the empty text when missing.
pub open spec fn spec_presence_from_parsed(e: ElementView) -> Result<PresenceView, EventError> {
    let t = match attr_value(e.attrs, plain_name("type"@)) {
        Some(t) => match spec_presence_type_from(t) {
            Some(p) => Ok(Some(p)),
            None => Err(EventError::InvalidInput),
        },
        None => Ok(None),
    };
    match t {
        Ok(t) => Ok(PresenceView {
            to: Some(spec_parse_jid(attr_or_empty(e, "to"@))),
            from: Some(spec_parse_jid(attr_or_empty(e, "from"@))),
            presence_type: t,
        }),
        Err(x) => Err(x),
    }
}

impl Presence {
    pub fn new() -> (r: Presence)
        ensures
            r@ == (PresenceView { to: None, from: None, presence_type: None }),
    {
        Presence { to: None, from: None, presence_type: None }
    }

    pub fn set_type(&mut self, presence_type: Option<PresenceType>) -> (r: Result<&mut Self, EventError>)
        ensures
            r matches Ok(m) && (*m)@ == (PresenceView { presence_type: presence_type, ..old(self)@ })
                && *final(self) == *final(m),
    {
        self.presence_type = presence_type;
        Ok(self)
    }

    pub fn get_type(&self) -> (r: Option<&PresenceType>)
        ensures
            match r {
                Some(t) => self@.presence_type == Some(*t),
                None => self@.presence_type is None,
            },
    {
        self.presence_type.as_ref()
    }

    /// Sets the sender; `None` is refused and leaves the presence as it was.
    pub fn set_from<T: ToJid>(&mut self, jid: Option<&T>) -> (r: Result<&mut Self, EventError>)
        ensures
            match jid {
                Some(t) => match t.spec_to_jid() {
                    Ok(v) => r matches Ok(m) && (*m)@ == (PresenceView { from: Some(v), ..old(self)@ })
                        && *final(self) == *final(m),
                    Err(_) => r matches Err(f) && f == EventError::InvalidInput && *final(self) == *old(self),
                },
                None => r matches Err(f) && f == EventError::InvalidInput && *final(self) == *old(self),
            },
    {
        match jid {
            Some(t) => match t.to_jid() {
                Ok(j) => {
                    self.from = Some(j);
                    Ok(self)
                },
                Err(_) => Err(EventError::InvalidInput),
            },
            None => Err(EventError::InvalidInput),
        }
    }

    pub fn get_from(&self) -> (r: Option<&Jid>)
        ensures
            match r {
                Some(j) => self@.from == Some(j@),
                None => self@.from is None,
            },
    {
        self.from.as_ref()
    }

    /// Sets the recipient; `None` is refused and leaves the presence as it was.
    pub fn set_to<T: ToJid>(&mut self, jid: Option<&T>) -> (r: Result<&mut Self, EventError>)
        ensures
            match jid {
                Some(t) => match t.spec_to_jid() {
                    Ok(v) => r matches Ok(m) && (*m)@ == (PresenceView { to: Some(v), ..old(self)@ })
                        && *final(self) == *final(m),
                    Err(_) => r matches Err(f) && f == EventError::InvalidInput && *final(self) == *old(self),
                },
                None => r matches Err(f) && f == EventError::InvalidInput && *final(self) == *old(self),
            },
    {
        match jid {
            Some(t) => match t.to_jid() {
                Ok(j) => {
                    self.to = Some(j);
                    Ok(self)
                },
                Err(_) => Err(EventError::InvalidInput),
            },
            None => Err(EventError::InvalidInput),
        }
    }

    pub fn get_to(&self) -> (r: Option<&Jid>)
        ensures
            match r {
                Some(j) => self@.to == Some(j@),
                None => self@.to is None,
            },
    {
        self.to.as_ref()
    }

    pub fn copy(&self) -> (r: Presence)
        ensures
            r@ == self@,
    {
        Presence { to: opt_jid_copy(&self.to), from: opt_jid_copy(&self.from), presence_type: self.presence_type }
    }

    /// The element of this presence.
    pub fn to_element(&self) -> (r: XmlElement)
        ensures
            r@ == spec_presence_element(self@),
    {
        let mut root = XmlElement::new(None, "presence");
        match self.presence_type {
            Some(t) => {
                let s = t.to_string();
                root.set_attr("type", s.as_str());
            },
            None => {},
        }
        root
    }

    /// The text of this presence.
    pub fn to_string(&self) -> (r: String)
        ensures
            r@ == xml_text(spec_presence_element(self@)),
    {
        write_xml(&self.to_element())
    }

    /// Reads a presence out of a parsed document.
    pub fn from_parsed(root: &XmlElement) -> (r: Result<Presence, EventError>)
        ensures
            match (r, spec_presence_from_parsed(root@)) {
                (Ok(p), Ok(v)) => p@ == v,
                (Err(x), Err(y)) => x == y,
                _ => false,
            },
    {
        let presence_type = match root.get_attr("type") {
            Some(t) => match PresenceType::from_str(t) {
                Ok(t) => Some(t),
                Err(e) => return Err(e),
            },
            None => None,
        };
        let to = Some(Jid::from_full_jid(get_attr_or_empty(root, "to")));
        let from = Some(Jid::from_full_jid(get_attr_or_empty(root, "from")));
        Ok(Presence { from, to, presence_type })
    }

    /// Reads a presence out of its text.
    pub fn from_str(s: &str) -> (r: Result<Presence, EventError>)
        ensures
            match xml_parse(s@) {
                Some(e) => match (r, spec_presence_from_parsed(e)) {
                    (Ok(p), Ok(v)) => p@ == v,
                    (Err(x), Err(y)) => x == y,
                    _ => false,
                },
                None => r == Err::<Presence, EventError>(EventError::InvalidInput),
            },
    {
        match parse_xml(s) {
            Some(root) => Presence::from_parsed(&root),
            None => Err(EventError::InvalidInput),
        }
    }

    /// The event of a presence.
    pub fn to_event(&self) -> (r: Event)
        ensures
            r@ == EventView::Stanza(StanzaEventView::Presence(self@), Seq::empty()),
    {
        Event::Stanza(Box::new(StanzaEvent::PresenceEvent(self.copy())), String::new())
    }
}

} // verus!
