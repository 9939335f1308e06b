//! Resource binding requests.
use vstd::prelude::*;
use crate::element::{XmlElement, ElementView, qname, plain_name, find_child, spec_empty_element};
use crate::jid::{Jid, JidView, spec_parse_jid};
use crate::ns;
use crate::events::kinds::{EventError, IqType, spec_iq_type_text};
use crate::events::generic::{GenericIq, GenericIqView, opt_jid_view, opt_jid_copy, spec_iq_element, spec_iq_from_element, spec_iq_from_text};
use crate::events::interface::{Event, StanzaEvent, IqEvent, FromGeneric, EventView, StanzaEventView, IqEventView};

verus! {

pub struct Bind {
    pub generic: GenericIq,
    pub jid: Option<Jid>,
}

/// The JID of the first `jid` child (without namespace), when there is one.
pub open spec fn spec_jid_child(e: Option<ElementView>) -> Option<JidView> {
    match e {
        Some(body) => match find_child(body, plain_name("jid"@)) {
            Some(j) => Some(spec_parse_jid(j.text)),
            None => None,
        },
        None => None,
    }
}

/// The element of a bind request: the IQ element with a `bind` child.
pub open spec fn spec_bind_element(v: GenericIqView) -> ElementView {
    let e = spec_iq_element(v);
    ElementView {
        children: e.children.push(spec_empty_element(qname(Some(ns::BIND@), "bind"@))),
        ..e
    }
}

/// The text of a bind request.
pub open spec fn spec_bind_text(v: GenericIqView) -> Seq<char> {
    "<iq type='"@ + spec_iq_type_text(v.iq_type) + "' id='"@ + v.id
        + "'><bind xmlns='urn:ietf:params:xml:ns:xmpp-bind'/></iq>"@
}

fn jid_of_child(body: &XmlElement) -> (r: Option<Jid>)
    ensures
        opt_jid_view(r) == spec_jid_child(Some(body@)),
{
    match body.find(None, "jid") {
        Some(j) => Some(Jid::from_full_jid(j.text())),
        None => None,
    }
}

impl Bind {
    /// A bind request with a fresh identifier.
    pub fn new() -> (r: Bind)
        ensures
            r.generic@.iq_type == IqType::Get,
            r.generic@.to is None,
            r.generic@.from is None,
            r.generic@.element is None,
            r.generic@.id.len() == 36,
            opt_jid_view(r.jid) == Some(spec_parse_jid(Seq::empty())),
    {
        let id = GenericIq::unique_id();
        proof {
            reveal_strlit("");
            assert(""@ =~= Seq::<char>::empty());
        }
        Bind { generic: GenericIq::new(id.as_str(), IqType::Get), jid: Some(Jid::from_full_jid("")) }
    }

    /// Reads a bind request out of its text: the text must hold an IQ; the JID is the one of
    /// its `jid` child, read from the empty text when there is none.
    pub fn from_str(s: &str) -> (r: Result<Bind, EventError>)
        ensures
            match (r, spec_iq_from_text(s@)) {
                (Ok(b), Ok(v)) => b.generic@ == v && opt_jid_view(b.jid) == Some(
                    match spec_jid_child(v.element) {
                        Some(j) => j,
                        None => spec_parse_jid(Seq::empty()),
                    },
                ),
                (Err(x), Err(y)) => x == y,
                _ => false,
            },
    {
        let generic = match GenericIq::from_str(s) {
            Ok(g) => g,
            Err(e) => return Err(e),
        };
        let jid = match generic.get_element() {
            Some(body) => match jid_of_child(body) {
                Some(j) => j,
                None => {
                    proof {
                        reveal_strlit("");
                        assert(""@ =~= Seq::<char>::empty());
                    }
                    Jid::from_full_jid("")
                },
            },
            None => {
                proof {
                    reveal_strlit("");
                    assert(""@ =~= Seq::<char>::empty());
                }
                Jid::from_full_jid("")
            },
        };
        Ok(Bind { generic, jid: Some(jid) })
    }

    /// Reads a bind request out of an element.
    pub fn from_element(e: XmlElement) -> (r: Result<Bind, EventError>)
        ensures
            match (r, spec_iq_from_element(e@)) {
                (Ok(b), Ok(v)) => b.generic@ == v && opt_jid_view(b.jid) == Some(
                    match spec_jid_child(v.element) {
                        Some(j) => j,
                        None => spec_parse_jid(Seq::empty()),
                    },
                ),
                (Err(x), Err(y)) => x == y,
                _ => false,
            },
    {
        let generic = match GenericIq::from_element(e) {
            Ok(g) => g,
            Err(err) => return Err(err),
        };
        let jid = match generic.get_element() {
            Some(body) => match jid_of_child(body) {
                Some(j) => j,
                None => {
                    proof {
                        reveal_strlit("");
                        assert(""@ =~= Seq::<char>::empty());
                    }
                    Jid::from_full_jid("")
                },
            },
            None => {
                proof {
                    reveal_strlit("");
                    assert(""@ =~= Seq::<char>::empty());
                }
                Jid::from_full_jid("")
            },
        };
        Ok(Bind { generic, jid: Some(jid) })
    }

    /// The text of this request.
    pub fn to_string(&self) -> (r: String)
        ensures
            r@ == spec_bind_text(self.generic@),
    {
        let mut out = "<iq type='".to_owned();
        let t = self.generic.get_type().to_string();
        out.append(t.as_str());
        out.append("' id='");
        out.append(self.generic.get_id());
        out.append("'><bind xmlns='urn:ietf:params:xml:ns:xmpp-bind'/></iq>");
        out
    }

    /// The element of this request.
    pub fn to_element(&self) -> (r: XmlElement)
        ensures
            r@ == spec_bind_element(self.generic@),
    {
        let mut element = self.generic.to_element();
        element.append_child(XmlElement::new(Some(ns::BIND), "bind"));
        element
    }

    pub fn get_id(&self) -> (r: &str)
        ensures
            r@ == self.generic@.id,
    {
        self.generic.get_id()
    }

    pub fn set_id(&mut self, id: &str)
        ensures
            final(self).generic@ == (GenericIqView { id: id@, ..old(self).generic@ }),
            opt_jid_view(final(self).jid) == opt_jid_view(old(self).jid),
    {
        self.generic.set_id(id);
    }

    pub fn get_type(&self) -> (r: IqType)
        ensures
            r == self.generic@.iq_type,
    {
        self.generic.get_type()
    }

    pub fn set_type(&mut self, iq_type: IqType)
        ensures
            final(self).generic@ == (GenericIqView { iq_type: iq_type, ..old(self).generic@ }),
            opt_jid_view(final(self).jid) == opt_jid_view(old(self).jid),
    {
        let _ = self.generic.set_type(iq_type);
    }

    pub fn get_to(&self) -> (r: Option<&Jid>)
        ensures
            match r {
                Some(j) => self.generic@.to == Some(j@),
                None => self.generic@.to is None,
            },
    {
        self.generic.get_to()
    }

    pub fn get_from(&self) -> (r: Option<&Jid>)
        ensures
            match r {
                Some(j) => self.generic@.from == Some(j@),
                None => self.generic@.from is None,
            },
    {
        self.generic.get_from()
    }

    pub fn copy(&self) -> (r: Bind)
        ensures
            r.generic@ == self.generic@,
            opt_jid_view(r.jid) == opt_jid_view(self.jid),
    {
        Bind { generic: self.generic.copy(), jid: opt_jid_copy(&self.jid) }
    }

    /// The event of a bind request: a response when it is a result, an IQ event of any other type otherwise.
    pub fn to_event(&self) -> (r: Event)
        ensures
            r@ == (if self.generic@.iq_type == IqType::Result {
                EventView::Stanza(
                    StanzaEventView::IqResponse(IqEventView::Bind(self.generic@, opt_jid_view(self.jid))),
                    Seq::empty(),
                )
            } else {
                EventView::Stanza(
                    StanzaEventView::Iq(IqEventView::Bind(self.generic@, opt_jid_view(self.jid))),
                    Seq::empty(),
                )
            }),
    {
        match self.generic.get_type() {
            IqType::Result => Event::Stanza(
                Box::new(StanzaEvent::IqResponseEvent(Box::new(IqEvent::BindEvent(self.copy())))),
                String::new(),
            ),
            _ => Event::Stanza(
                Box::new(StanzaEvent::IqEvent(Box::new(IqEvent::BindEvent(self.copy())))),
                String::new(),
            ),
        }
    }
}

impl FromGeneric for Bind {
    type Generic = GenericIq;

    type Out = Bind;

    /// A bind reply read out of a generic IQ: the JID is the one of the `jid` child of its
    /// element, when there is one; this never fails.
    fn from_generic(event: &GenericIq) -> (r: Result<Bind, EventError>)
        ensures
            r matches Ok(b) && b.generic@ == event@ && opt_jid_view(b.jid) == spec_jid_child(event@.element),
    {
        let jid = match event.get_element() {
            Some(body) => jid_of_child(body),
            None => None,
        };
        Ok(Bind { generic: event.copy(), jid })
    }
}

impl Default for Bind {
    fn default() -> (r: Bind)
        ensures
            r.generic@ == crate::events::generic::spec_new_iq(Seq::empty(), IqType::Get),
            r.jid is None,
    {
        Bind { generic: GenericIq::default(), jid: None }
    }
}

} // verus!
