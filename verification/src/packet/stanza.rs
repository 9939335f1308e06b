//! Stanzas of a packet: IQs, checked as RFC 6120 asks, messages and presences.
use vstd::prelude::*;
use crate::element::{XmlElement, ElementView, attr_value, find_child, plain_name, qname};
use crate::jid::Jid;
use crate::ns;
use crate::events::kinds::{IqType, spec_iq_type_from};
use crate::events::generic::{GenericIqView, attr_jid, get_attr_jid, opt_elem_copy, opt_elem_view, opt_jid_copy,
    opt_jid_view};

verus! {

/// Why an element is not a valid IQ.
#[derive(Clone, Copy, Debug, PartialEq, Eq, Structural)]
pub enum IqReadError {
    /// The `id` attribute is missing.
    IdRequired,
    /// The `type` attribute is missing.
    TypeRequired,
    /// The `type` attribute names no IQ type.
    UnsupportedType,
    /// A result has more than one child.
    ResultChildren,
    /// An error has no `{jabber:client}error` child.
    ErrorChildMissing,
    /// A get or a set does not have exactly one child.
    RequestChildren,
    /// A stanza that is not an error has an `error` child.
    UnexpectedError,
}

/// The message of an error.
pub open spec fn spec_iq_error_message(e: IqReadError) -> Seq<char> {
    match e {
        IqReadError::IdRequired => "ID is required"@,
        IqReadError::TypeRequired => "TYPE is required"@,
        IqReadError::UnsupportedType => "Unsupported IqType"@,
        IqReadError::ResultChildren => "An IQ stanza of type \"result\" MUST include zero or one child elements."@,
        IqReadError::ErrorChildMissing => "An IQ stanza of type \"error\" SHOULD include the child element contained in the associated \"get\" or \"set\" and MUST include an <error/> child"@,
        IqReadError::RequestChildren => "IqType Get/Set MUST contain one and only one child"@,
        IqReadError::UnexpectedError => "An <error/> child MUST NOT be included if the 'type' attribute has a value other than \"error\""@,
    }
}

impl IqReadError {
    /// The message of the error.
    pub fn message(&self) -> (r: &'static str)
        ensures
            r@ == spec_iq_error_message(*self),
    {
        match self {
            IqReadError::IdRequired => "ID is required",
            IqReadError::TypeRequired => "TYPE is required",
            IqReadError::UnsupportedType => "Unsupported IqType",
            IqReadError::ResultChildren => "An IQ stanza of type \"result\" MUST include zero or one child elements.",
            IqReadError::ErrorChildMissing => "An IQ stanza of type \"error\" SHOULD include the child element contained in the associated \"get\" or \"set\" and MUST include an <error/> child",
            IqReadError::RequestChildren => "IqType Get/Set MUST contain one and only one child",
            IqReadError::UnexpectedError => "An <error/> child MUST NOT be included if the 'type' attribute has a value other than \"error\"",
        }
    }
}

/// What `GenericIq::from_element` makes of an element: `id` and `type` are required and the
/// type must be known; a result has at most one child, an error has a `{jabber:client}error`
/// child, a get or a set has exactly one child, and only an error may have an `error` child;
/// `to` and `from` are read when present, and the element is kept.
pub open spec fn spec_iq_read(e: ElementView) -> Result<GenericIqView, IqReadError> {
    match attr_value(e.attrs, plain_name("id"@)) {
        None => Err(IqReadError::IdRequired),
        Some(id) => match attr_value(e.attrs, plain_name("type"@)) {
            None => Err(IqReadError::TypeRequired),
            Some(t) => match spec_iq_type_from(t) {
                None => Err(IqReadError::UnsupportedType),
                Some(iq_type) => if iq_type == IqType::Result && e.children.len() > 1 {
                    Err(IqReadError::ResultChildren)
                } else if iq_type == IqType::Error && find_child(e, qname(Some(ns::CLIENT@), "error"@)) is None {
                    Err(IqReadError::ErrorChildMissing)
                } else if (iq_type == IqType::Get || iq_type == IqType::SetRequest) && e.children.len() != 1 {
                    Err(IqReadError::RequestChildren)
                } else if iq_type != IqType::Error && find_child(e, plain_name("error"@)) is Some {
                    Err(IqReadError::UnexpectedError)
                } else {
                    Ok(GenericIqView {
                        id: id,
                        iq_type: iq_type,
                        to: attr_jid(e, "to"@),
                        from: attr_jid(e, "from"@),
                        element: Some(e),
                    })
                },
            },
        },
    }
}

/// An IQ stanza of a packet.
#[derive(Debug)]
pub struct GenericIq {
    id: String,
    iq_type: IqType,
    to: Option<Jid>,
    from: Option<Jid>,
    element: Option<XmlElement>,
}

impl View for GenericIq {
    type V = GenericIqView;

    closed spec fn view(&self) -> GenericIqView {
        GenericIqView {
            id: self.id@,
            iq_type: self.iq_type,
            to: opt_jid_view(self.to),
            from: opt_jid_view(self.from),
            element: opt_elem_view(self.element),
        }
    }
}

impl GenericIq {
    pub fn new(id: &str, iq_type: IqType) -> (r: GenericIq)
        ensures
            r@ == (GenericIqView { id: id@, iq_type: iq_type, to: None, from: None, element: None }),
    {
        GenericIq { id: id.to_owned(), iq_type, to: None, from: None, element: None }
    }

    /// A fresh random identifier (a UUID, version 4, in its hyphenated form).
    pub fn unique_id() -> (r: String)
        ensures
            r@.len() == 36,
    {
        crate::ids::new_v4_string()
    }

    pub fn get_element(&self) -> (r: Option<&XmlElement>)
        ensures
            match r {
                Some(e) => self@.element == Some(e@),
                None => self@.element is None,
            },
    {
        self.element.as_ref()
    }

    pub fn set_type(&mut self, iq_type: IqType) -> (r: &mut Self)
        ensures
            (*r)@ == (GenericIqView { iq_type: iq_type, ..old(self)@ }),
            *final(self) == *final(r),
    {
        self.iq_type = iq_type;
        self
    }

    pub fn get_type(&self) -> (r: IqType)
        ensures
            r == self@.iq_type,
    {
        self.iq_type
    }

    pub fn get_id(&self) -> (r: &str)
        ensures
            r@ == self@.id,
    {
        self.id.as_str()
    }

    pub fn set_id(&mut self, id: &str) -> (r: &mut Self)
        ensures
            (*r)@ == (GenericIqView { id: id@, ..old(self)@ }),
            *final(self) == *final(r),
    {
        self.id = id.to_owned();
        self
    }

    pub fn set_to(&mut self, jid: Option<Jid>) -> (r: &mut Self)
        ensures
            (*r)@ == (GenericIqView { to: opt_jid_view(jid), ..old(self)@ }),
            *final(self) == *final(r),
    {
        self.to = jid;
        self
    }

    pub fn get_to(&self) -> (r: Option<&Jid>)
        ensures
            match r {
                Some(j) => self@.to == Some(j@),
                None => self@.to is None,
            },
    {
        self.to.as_ref()
    }

    pub fn set_from(&mut self, jid: Option<Jid>) -> (r: &mut Self)
        ensures
            (*r)@ == (GenericIqView { from: opt_jid_view(jid), ..old(self)@ }),
            *final(self) == *final(r),
    {
        self.from = jid;
        self
    }

    pub fn get_from(&self) -> (r: Option<&Jid>)
        ensures
            match r {
                Some(j) => self@.from == Some(j@),
                None => self@.from is None,
            },
    {
        self.from.as_ref()
    }

    /// A copy of this IQ.
    pub fn copy(&self) -> (r: GenericIq)
        ensures
            r@ == self@,
    {
        GenericIq {
            id: self.id.clone(),
            iq_type: self.iq_type,
            to: opt_jid_copy(&self.to),
            from: opt_jid_copy(&self.from),
            element: opt_elem_copy(&self.element),
        }
    }

    /// The element the IQ was read from; an IQ built here has none to give.
    pub fn to_element(&self) -> (r: XmlElement)
        requires
            self@.element is Some,
        ensures
            Some(r@) == self@.element,
    {
        match &self.element {
            Some(e) => e.copy(),
            None => {
                assert(false);
                XmlElement::new(None, "iq")
            },
        }
    }

    /// Reads an IQ out of an element, and checks it.
    pub fn from_element(e: &XmlElement) -> (r: Result<GenericIq, IqReadError>)
        ensures
            match (r, spec_iq_read(e@)) {
                (Ok(g), Ok(v)) => g@ == v,
                (Err(x), Err(y)) => x == y,
                _ => false,
            },
    {
        let id = match e.get_attr("id") {
            Some(id) => id.to_owned(),
            None => return Err(IqReadError::IdRequired),
        };
        let iq_type = match e.get_attr("type") {
            Some(t) => match IqType::from_str(t) {
                Ok(t) => t,
                Err(_) => return Err(IqReadError::UnsupportedType),
            },
            None => return Err(IqReadError::TypeRequired),
        };
        match iq_type {
            IqType::Result => {
                if e.child_count() > 1 {
                    return Err(IqReadError::ResultChildren);
                }
            },
            IqType::Error => {
                if e.find(Some(ns::CLIENT), "error").is_none() {
                    return Err(IqReadError::ErrorChildMissing);
                }
            },
            IqType::SetRequest | IqType::Get => {
                if e.child_count() != 1 {
                    return Err(IqReadError::RequestChildren);
                }
            },
        }
        match iq_type {
            IqType::Error => {},
            _ => {
                if e.find(None, "error").is_some() {
                    return Err(IqReadError::UnexpectedError);
                }
            },
        }
        let to = get_attr_jid(e, "to");
        let from = get_attr_jid(e, "from");
        Ok(GenericIq { id, iq_type, to, from, element: Some(e.copy()) })
    }
}

impl Default for GenericIq {
    fn default() -> (r: GenericIq)
        ensures
            r@ == (GenericIqView { id: Seq::empty(), iq_type: IqType::Get, to: None, from: None, element: None }),
    {
        proof {
            reveal_strlit("");
            assert(""@ =~= Seq::<char>::empty());
        }
        GenericIq::new("", IqType::Get)
    }
}

/// Define a sub part of a Packet, a Stanza is the representation of an Xmpp Stanza which can be a
/// Presence, an IQ or a Message.
#[derive(Debug)]
pub enum Stanza {
    IQ(GenericIq),
    Message(XmlElement),
    Presence(XmlElement),
}

pub enum StanzaView {
    IQ(GenericIqView),
    Message(ElementView),
    Presence(ElementView),
}

impl View for Stanza {
    type V = StanzaView;

    open spec fn view(&self) -> StanzaView {
        match self {
            Stanza::IQ(g) => StanzaView::IQ(g@),
            Stanza::Message(e) => StanzaView::Message(e@),
            Stanza::Presence(e) => StanzaView::Presence(e@),
        }
    }
}

/// The element of a stanza: the one an IQ was read from, or the message or presence itself.
pub open spec fn spec_stanza_element(s: StanzaView) -> Option<ElementView> {
    match s {
        StanzaView::IQ(g) => g.element,
        StanzaView::Message(e) => Some(e),
        StanzaView::Presence(e) => Some(e),
    }
}

impl Stanza {
    /// The element of a stanza; an IQ built here, which has no element, is left out.
    pub fn to_element(&self) -> (r: XmlElement)
        requires
            spec_stanza_element(self@) is Some,
        ensures
            spec_stanza_element(self@) == Some(r@),
    {
        match self {
            Stanza::IQ(iq) => iq.to_element(),
            Stanza::Message(s) => s.copy(),
            Stanza::Presence(s) => s.copy(),
        }
    }

    pub fn copy(&self) -> (r: Stanza)
        ensures
            r@ == self@,
    {
        match self {
            Stanza::IQ(iq) => Stanza::IQ(iq.copy()),
            Stanza::Message(s) => Stanza::Message(s.copy()),
            Stanza::Presence(s) => Stanza::Presence(s.copy()),
        }
    }
}

} // verus!
