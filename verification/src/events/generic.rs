//! Generic IQ and message stanzas.
use vstd::prelude::*;
use crate::element::{XmlElement, ElementView, AttrView, attr_value, attrs_set, plain_name, find_child, spec_empty_element,
    lemma_set_then_get_attr, lemma_set_attr_keeps_others};
use crate::jid::{Jid, JidView, ToJid, spec_parse_jid, spec_jid_text, jid_separators_free, lemma_jid_text_roundtrip};
use crate::xml::{parse_xml, xml_parse};
use crate::events::kinds::{EventError, IqType, MessageType, StanzaError, spec_iq_type_from, spec_iq_type_text, spec_message_type_from, spec_message_type_text,
    lemma_iq_type_text_roundtrip};
use crate::events::interface::{Event, StanzaEvent, IqEvent, EventView, StanzaEventView, IqEventView};

verus! {

pub open spec fn opt_jid_view(o: Option<Jid>) -> Option<JidView> {
    match o {
        Some(j) => Some(j@),
        None => None,
    }
}

pub open spec fn opt_elem_view(o: Option<XmlElement>) -> Option<ElementView> {
    match o {
        Some(e) => Some(e@),
        None => None,
    }
}

/// The value of the attribute `name` (without namespace), or the empty text.
pub open spec fn attr_or_empty(e: ElementView, name: Seq<char>) -> Seq<char> {
    match attr_value(e.attrs, plain_name(name)) {
        Some(v) => v,
        None => Seq::empty(),
    }
}

/// The JID the attribute `name` holds, when there is that attribute.
pub open spec fn attr_jid(e: ElementView, name: Seq<char>) -> Option<JidView> {
    match attr_value(e.attrs, plain_name(name)) {
        Some(v) => Some(spec_parse_jid(v)),
        None => None,
    }
}

/// Sets the attribute `name` to the text of the JID, when there is one.
pub open spec fn attrs_set_jid(attrs: Seq<crate::element::AttrView>, name: Seq<char>, j: Option<JidView>) -> Seq<crate::element::AttrView> {
    match j {
        Some(j) => attrs_set(attrs, plain_name(name), spec_jid_text(j)),
        None => attrs,
    }
}

pub fn opt_jid_copy(o: &Option<Jid>) -> (r: Option<Jid>)
    ensures
        opt_jid_view(r) == opt_jid_view(*o),
{
    match o {
        Some(j) => Some(j.copy()),
        None => None,
    }
}

pub fn opt_elem_copy(o: &Option<XmlElement>) -> (r: Option<XmlElement>)
    ensures
        opt_elem_view(r) == opt_elem_view(*o),
{
    match o {
        Some(e) => Some(e.copy()),
        None => None,
    }
}

/// The JID held by the attribute `name`, when there is that attribute.
pub fn get_attr_jid(e: &XmlElement, name: &str) -> (r: Option<Jid>)
    ensures
        opt_jid_view(r) == attr_jid(e@, name@),
{
    match e.get_attr(name) {
        Some(t) => Some(Jid::from_full_jid(t)),
        None => None,
    }
}

/// The value of the attribute `name`, or the empty text.
pub fn get_attr_or_empty<'a>(e: &'a XmlElement, name: &str) -> (r: &'a str)
    ensures
        r@ == attr_or_empty(e@, name@),
{
    match e.get_attr(name) {
        Some(t) => t,
        None => {
            proof {
                reveal_strlit("");
                assert(""@ =~= Seq::<char>::empty());
            }
            ""
        },
    }
}

/// Sets the attribute `name` to the text of the JID, when there is one.
pub fn set_attr_jid(e: &mut XmlElement, name: &str, j: &Option<Jid>)
    ensures
        final(e)@ == (ElementView { attrs: attrs_set_jid(old(e)@.attrs, name@, opt_jid_view(*j)), ..old(e)@ }),
{
    match j {
        Some(j) => {
            let t = j.to_string();
            e.set_attr(name, t.as_str());
        },
        None => {
            proof {
                assert(e@.attrs =~= attrs_set_jid(old(e)@.attrs, name@, opt_jid_view(*j)));
            }
        },
    }
}

/// The mathematical value of a generic IQ stanza.
pub struct GenericIqView {
    pub id: Seq<char>,
    pub iq_type: IqType,
    pub to: Option<JidView>,
    pub from: Option<JidView>,
    pub element: Option<ElementView>,
}

pub struct GenericIq {
    id: String,
    iq_type: IqType,
    to: Option<Jid>,
    from: Option<Jid>,
    element: Option<XmlElement>,
    error: StanzaError,
}

impl View for GenericIq {
    type V = GenericIqView;

    closed spec fn view(&self) -> GenericIqView {
        GenericIqView {
            id: self.id@,
            iq_type: self.iq_type,
            to: opt_jid_view(self.to),
            from: opt_jid_view(self.from),
            element: opt_elem_view(self.element),
        }
    }
}

/// An IQ with this id and type and nothing else.
pub open spec fn spec_new_iq(id: Seq<char>, iq_type: IqType) -> GenericIqView {
    GenericIqView { id: id, iq_type: iq_type, to: None, from: None, element: None }
}

/// What `GenericIq::from_element` reads out of an element: the `id` attribute is required,
/// the `type` attribute (empty when missing) must name an IQ type; `to` and `from` are read
/// when present; the element itself is kept.
pub open spec fn spec_iq_from_element(e: ElementView) -> Result<GenericIqView, EventError> {
    match attr_value(e.attrs, plain_name("id"@)) {
        None => Err(EventError::InvalidInput),
        Some(id) => match spec_iq_type_from(attr_or_empty(e, "type"@)) {
            None => Err(EventError::InvalidInput),
            Some(t) => Ok(GenericIqView {
                id: id,
                iq_type: t,
                to: attr_jid(e, "to"@),
                from: attr_jid(e, "from"@),
                element: Some(e),
            }),
        },
    }
}

/// The child count an IQ of type `t` must have: at most one child for a result, an `error`
/// child for an error, exactly one child for a get or a set.
pub open spec fn iq_children_valid(e: ElementView, t: IqType) -> bool {
    match t {
        IqType::Result => e.children.len() <= 1,
        IqType::Error => find_child(e, plain_name("error"@)) is Some,
        _ => e.children.len() == 1,
    }
}

/// What `GenericIq::from_parsed` reads out of a parsed document: as `from_element`, but the
/// `from` JID is always read (from the empty text when missing) and the children are checked.
pub open spec fn spec_iq_from_parsed(e: ElementView) -> Result<GenericIqView, EventError> {
    match attr_value(e.attrs, plain_name("id"@)) {
        None => Err(EventError::InvalidInput),
        Some(id) => match spec_iq_type_from(attr_or_empty(e, "type"@)) {
            None => Err(EventError::InvalidInput),
            Some(t) => if iq_children_valid(e, t) {
                Ok(GenericIqView {
                    id: id,
                    iq_type: t,
                    to: attr_jid(e, "to"@),
                    from: Some(spec_parse_jid(attr_or_empty(e, "from"@))),
                    element: Some(e),
                })
            } else {
                Err(EventError::InvalidInput)
            },
        },
    }
}

/// What `GenericIq::from_str` gives for a text.
pub open spec fn spec_iq_from_text(s: Seq<char>) -> Result<GenericIqView, EventError> {
    match xml_parse(s) {
        Some(e) => spec_iq_from_parsed(e),
        None => Err(EventError::InvalidInput),
    }
}

/// The element of an IQ: `<iq type='..' id='..' to='..' from='..'/>`, `to` and `from` only
/// when present.
pub open spec fn spec_iq_element(v: GenericIqView) -> ElementView {
    let a1 = attrs_set(Seq::empty(), plain_name("type"@), spec_iq_type_text(v.iq_type));
    let a2 = attrs_set(a1, plain_name("id"@), v.id);
    let a3 = attrs_set_jid(a2, "to"@, v.to);
    let a4 = attrs_set_jid(a3, "from"@, v.from);
    ElementView { attrs: a4, ..spec_empty_element(plain_name("iq"@)) }
}

/// Setting an optional JID attribute leaves the other attributes as they were.
proof fn lemma_set_jid_keeps_others(attrs: Seq<AttrView>, name: Seq<char>, j: Option<JidView>, other: Seq<char>)
    requires
        name != other,
    ensures
        attr_value(attrs_set_jid(attrs, name, j), plain_name(other)) == attr_value(attrs, plain_name(other)),
{
    if let Some(j) = j {
        lemma_set_attr_keeps_others(attrs, plain_name(name), spec_jid_text(j), plain_name(other));
    }
}

/// Setting an optional JID attribute and reading it back gives the JID, when it reads back
/// as itself.
proof fn lemma_set_jid_then_get(attrs: Seq<AttrView>, name: Seq<char>, j: Option<JidView>)
    requires
        j matches Some(v) ==> jid_separators_free(v),
        attr_value(attrs, plain_name(name)) is None,
    ensures
        match attr_value(attrs_set_jid(attrs, name, j), plain_name(name)) {
            Some(t) => Some(spec_parse_jid(t)),
            None => None,
        } == j,
{
    if let Some(v) = j {
        lemma_set_then_get_attr(attrs, plain_name(name), spec_jid_text(v));
        lemma_jid_text_roundtrip(v);
    }
}

/// Reading back the element of an IQ gives the IQ again, with that element kept, when its
/// JIDs read back as themselves (no separator inside their parts).
pub proof fn lemma_iq_element_roundtrip(v: GenericIqView)
    requires
        v.to matches Some(j) ==> jid_separators_free(j),
        v.from matches Some(j) ==> jid_separators_free(j),
    ensures
        spec_iq_from_element(spec_iq_element(v)) == Ok::<GenericIqView, EventError>(
            GenericIqView { element: Some(spec_iq_element(v)), ..v },
        ),
{
    reveal_strlit("type");
    reveal_strlit("id");
    reveal_strlit("to");
    reveal_strlit("from");
    assert("type"@[0] != "id"@[0] && "type"@.len() != "to"@.len() && "type"@[0] != "from"@[0]);
    assert("id"@[0] != "to"@[0] && "id"@[0] != "from"@[0] && "to"@[0] != "from"@[0]);
    let a1 = attrs_set(Seq::empty(), plain_name("type"@), spec_iq_type_text(v.iq_type));
    let a2 = attrs_set(a1, plain_name("id"@), v.id);
    let a3 = attrs_set_jid(a2, "to"@, v.to);
    let a4 = attrs_set_jid(a3, "from"@, v.from);
    lemma_set_then_get_attr(Seq::empty(), plain_name("type"@), spec_iq_type_text(v.iq_type));
    lemma_set_attr_keeps_others(a1, plain_name("id"@), v.id, plain_name("type"@));
    lemma_set_then_get_attr(a1, plain_name("id"@), v.id);
    lemma_set_jid_keeps_others(a2, "to"@, v.to, "type"@);
    lemma_set_jid_keeps_others(a2, "to"@, v.to, "id"@);
    lemma_set_jid_keeps_others(a3, "from"@, v.from, "type"@);
    lemma_set_jid_keeps_others(a3, "from"@, v.from, "id"@);
    lemma_set_jid_keeps_others(a3, "from"@, v.from, "to"@);
    assert(attr_value(Seq::empty(), plain_name("to"@)) is None);
    lemma_set_attr_keeps_others(Seq::empty(), plain_name("type"@), spec_iq_type_text(v.iq_type), plain_name("to"@));
    lemma_set_attr_keeps_others(a1, plain_name("id"@), v.id, plain_name("to"@));
    lemma_set_jid_then_get(a2, "to"@, v.to);
    assert(attr_value(Seq::empty(), plain_name("from"@)) is None);
    lemma_set_attr_keeps_others(Seq::empty(), plain_name("type"@), spec_iq_type_text(v.iq_type), plain_name("from"@));
    lemma_set_attr_keeps_others(a1, plain_name("id"@), v.id, plain_name("from"@));
    lemma_set_jid_keeps_others(a2, "to"@, v.to, "from"@);
    lemma_set_jid_then_get(a3, "from"@, v.from);
    lemma_iq_type_text_roundtrip(v.iq_type);
}

impl GenericIq {
    pub fn new(id: &str, iq_type: IqType) -> (r: GenericIq)
        ensures
            r@ == spec_new_iq(id@, iq_type),
    {
        GenericIq {
            id: id.to_owned(),
            iq_type: iq_type,
            to: None,
            from: None,
            element: None,
            error: StanzaError::Unspecified,
        }
    }

    /// A fresh random identifier (a UUID, version 4, in its hyphenated form).
    pub fn unique_id() -> (r: String)
        ensures
            r@.len() == 36,
    {
        crate::ids::new_v4_string()
    }

    pub fn get_element(&self) -> (r: Option<&XmlElement>)
        ensures
            match r {
                Some(e) => self@.element == Some(e@),
                None => self@.element is None,
            },
    {
        self.element.as_ref()
    }

    pub fn set_type(&mut self, iq_type: IqType) -> (r: Result<&mut Self, EventError>)
        ensures
            r matches Ok(m) && (*m)@ == (GenericIqView { iq_type: iq_type, ..old(self)@ })
                && *final(self) == *final(m),
    {
        self.iq_type = iq_type;
        Ok(self)
    }

    pub fn get_type(&self) -> (r: IqType)
        ensures
            r == self@.iq_type,
    {
        self.iq_type
    }

    pub fn get_id(&self) -> (r: &str)
        ensures
            r@ == self@.id,
    {
        self.id.as_str()
    }

    pub fn set_id(&mut self, id: &str) -> (r: &mut Self)
        ensures
            (*r)@ == (GenericIqView { id: id@, ..old(self)@ }),
            *final(self) == *final(r),
    {
        self.id = id.to_owned();
        self
    }

    /// Sets the recipient; `None` is refused and leaves the IQ as it was.
    pub fn set_to<T: ToJid>(&mut self, jid: Option<&T>) -> (r: Result<&mut Self, EventError>)
        ensures
            match jid {
                Some(t) => match t.spec_to_jid() {
                    Ok(v) => r matches Ok(m) && (*m)@ == (GenericIqView { to: Some(v), ..old(self)@ })
                        && *final(self) == *final(m),
                    Err(_) => r matches Err(f) && f == EventError::InvalidInput && *final(self) == *old(self),
                },
                None => r matches Err(f) && f == EventError::InvalidInput && *final(self) == *old(self),
            },
    {
        match jid {
            Some(t) => match t.to_jid() {
                Ok(j) => {
                    self.to = Some(j);
                    Ok(self)
                },
                Err(_) => Err(EventError::InvalidInput),
            },
            None => Err(EventError::InvalidInput),
        }
    }

    pub fn get_to(&self) -> (r: Option<&Jid>)
        ensures
            match r {
                Some(j) => self@.to == Some(j@),
                None => self@.to is None,
            },
    {
        self.to.as_ref()
    }

    /// Sets the sender; `None` is refused and leaves the IQ as it was.
    pub fn set_from<T: ToJid>(&mut self, jid: Option<&T>) -> (r: Result<&mut Self, EventError>)
        ensures
            match jid {
                Some(t) => match t.spec_to_jid() {
                    Ok(v) => r matches Ok(m) && (*m)@ == (GenericIqView { from: Some(v), ..old(self)@ })
                        && *final(self) == *final(m),
                    Err(_) => r matches Err(f) && f == EventError::InvalidInput && *final(self) == *old(self),
                },
                None => r matches Err(f) && f == EventError::InvalidInput && *final(self) == *old(self),
            },
    {
        match jid {
            Some(t) => match t.to_jid() {
                Ok(j) => {
                    self.from = Some(j);
                    Ok(self)
                },
                Err(_) => Err(EventError::InvalidInput),
            },
            None => Err(EventError::InvalidInput),
        }
    }

    pub fn get_from(&self) -> (r: Option<&Jid>)
        ensures
            match r {
                Some(j) => self@.from == Some(j@),
                None => self@.from is None,
            },
    {
        self.from.as_ref()
    }

    /// A copy of this IQ.
    pub fn copy(&self) -> (r: GenericIq)
        ensures
            r@ == self@,
    {
        GenericIq {
            id: self.id.clone(),
            iq_type: self.iq_type,
            to: opt_jid_copy(&self.to),
            from: opt_jid_copy(&self.from),
            element: opt_elem_copy(&self.element),
            error: self.error,
        }
    }

    /// The event of a generic IQ.
    pub fn to_event(&self) -> (r: Event)
        ensures
            r@ == EventView::Stanza(StanzaEventView::Iq(IqEventView::Generic(self@)), Seq::empty()),
    {
        Event::Stanza(Box::new(StanzaEvent::IqEvent(Box::new(IqEvent::GenericEvent(self.copy())))), String::new())
    }

    /// The element of this IQ.
    pub fn to_element(&self) -> (r: XmlElement)
        ensures
            r@ == spec_iq_element(self@),
    {
        let mut root = XmlElement::new(None, "iq");
        let t = self.iq_type.to_string();
        root.set_attr("type", t.as_str());
        root.set_attr("id", self.id.as_str());
        set_attr_jid(&mut root, "to", &self.to);
        set_attr_jid(&mut root, "from", &self.from);
        root
    }

    /// Reads an IQ out of an element, keeping the element.
    pub fn from_element(e: XmlElement) -> (r: Result<GenericIq, EventError>)
        ensures
            match (r, spec_iq_from_element(e@)) {
                (Ok(g), Ok(v)) => g@ == v,
                (Err(x), Err(y)) => x == y,
                _ => false,
            },
    {
        let id = match e.get_attr("id") {
            Some(id) => id.to_owned(),
            None => return Err(EventError::InvalidInput),
        };
        let iq_type = match IqType::from_str(get_attr_or_empty(&e, "type")) {
            Ok(t) => t,
            Err(err) => return Err(err),
        };
        let to = get_attr_jid(&e, "to");
        let from = get_attr_jid(&e, "from");
        Ok(GenericIq { id, iq_type, to, from, element: Some(e), error: StanzaError::Unspecified })
    }

    /// Reads an IQ out of a parsed document and checks its children: a result has at most
    /// one child, an error has an `error` child, a get or a set has exactly one child.
    pub fn from_parsed(root: XmlElement) -> (r: Result<GenericIq, EventError>)
        ensures
            match (r, spec_iq_from_parsed(root@)) {
                (Ok(g), Ok(v)) => g@ == v,
                (Err(x), Err(y)) => x == y,
                _ => false,
            },
    {
        let id = match root.get_attr("id") {
            Some(id) => id.to_owned(),
            None => return Err(EventError::InvalidInput),
        };
        let iq_type = match IqType::from_str(get_attr_or_empty(&root, "type")) {
            Ok(t) => t,
            Err(err) => return Err(err),
        };
        let to = get_attr_jid(&root, "to");
        let from = Some(Jid::from_full_jid(get_attr_or_empty(&root, "from")));
        let valid = match iq_type {
            IqType::Result => root.child_count() <= 1,
            IqType::Error => root.find(None, "error").is_some(),
            _ => root.child_count() == 1,
        };
        if !valid {
            return Err(EventError::InvalidInput);
        }
        Ok(GenericIq { id, iq_type, to, from, element: Some(root), error: StanzaError::Unspecified })
    }

    /// Reads an IQ out of its text.
    pub fn from_str(s: &str) -> (r: Result<GenericIq, EventError>)
        ensures
            match (r, spec_iq_from_text(s@)) {
                (Ok(g), Ok(v)) => g@ == v,
                (Err(x), Err(y)) => x == y,
                _ => false,
            },
    {
        match parse_xml(s) {
            Some(root) => GenericIq::from_parsed(root),
            None => Err(EventError::InvalidInput),
        }
    }
}

impl Default for GenericIq {
    fn default() -> (r: GenericIq)
        ensures
            r@ == spec_new_iq(Seq::empty(), IqType::Get),
    {
        let r = GenericIq::new("", IqType::Get);
        proof {
            reveal_strlit("");
            assert(""@ =~= Seq::<char>::empty());
        }
        r
    }
}

/// The mathematical value of a generic message stanza.
pub struct GenericMessageView {
    pub id: Option<Seq<char>>,
    pub to: JidView,
    pub from: Option<JidView>,
    pub message_type: Option<MessageType>,
    pub element: Option<ElementView>,
    pub childs: Option<Seq<ElementView>>,
}

pub struct GenericMessage {
    pub id: Option<String>,
    pub to: Jid,
    pub from: Option<Jid>,
    pub message_type: Option<MessageType>,
    pub element: Option<XmlElement>,
    pub childs: Option<Vec<XmlElement>>,
}

pub open spec fn opt_elems_view(o: Option<Vec<XmlElement>>) -> Option<Seq<ElementView>> {
    match o {
        Some(v) => Some(v@.map_values(|e: XmlElement| e@)),
        None => None,
    }
}

impl View for GenericMessage {
    type V = GenericMessageView;

    open spec fn view(&self) -> GenericMessageView {
        GenericMessageView {
            id: crate::jid::opt_view(self.id),
            to: self.to@,
            from: opt_jid_view(self.from),
            message_type: self.message_type,
            element: opt_elem_view(self.element),
            childs: opt_elems_view(self.childs),
        }
    }
}

/// What `GenericMessage::from_element` reads out of an element: an element without a `to`
/// attribute is refused, the recipient being required; else the message read.
pub open spec fn spec_message_read(e: ElementView) -> Result<GenericMessageView, EventError> {
    if attr_value(e.attrs, plain_name("to"@)) is None {
        Err(EventError::InvalidInput)
    } else {
        Ok(spec_message_from_element(e))
    }
}

/// What `GenericMessage::from_parsed` reads out of a parsed document: a document without a
/// `to` attribute is refused; else the message read.
pub open spec fn spec_message_read_parsed(e: ElementView) -> Result<GenericMessageView, EventError> {
    if attr_value(e.attrs, plain_name("to"@)) is None {
        Err(EventError::InvalidInput)
    } else {
        Ok(spec_message_from_parsed(e))
    }
}

pub open spec fn message_result_view(r: Result<GenericMessage, EventError>) -> Result<GenericMessageView, EventError> {
    match r {
        Ok(m) => Ok(m@),
        Err(x) => Err(x),
    }
}

/// The message an element holding a `to` attribute is read as: the optional `id`, the type
/// (none when it names no message type), the `to` JID, the optional `from` JID, the element
/// and its children.
pub open spec fn spec_message_from_element(e: ElementView) -> GenericMessageView {
    GenericMessageView {
        id: attr_value(e.attrs, plain_name("id"@)),
        to: spec_parse_jid(attr_or_empty(e, "to"@)),
        from: attr_jid(e, "from"@),
        message_type: spec_message_type_from(attr_or_empty(e, "type"@)),
        element: Some(e),
        childs: Some(e.children),
    }
}

/// The message a parsed document holding a `to` attribute is read as: as `from_element`, but
/// the `from` JID is always read and the children are not kept apart.
pub open spec fn spec_message_from_parsed(e: ElementView) -> GenericMessageView {
    GenericMessageView {
        id: attr_value(e.attrs, plain_name("id"@)),
        to: spec_parse_jid(attr_or_empty(e, "to"@)),
        from: Some(spec_parse_jid(attr_or_empty(e, "from"@))),
        message_type: spec_message_type_from(attr_or_empty(e, "type"@)),
        element: Some(e),
        childs: None,
    }
}

/// The element of a message: `<message type=.. id=.. to=.. from=..>` with the kept children;
/// `type`, `id` and `from` only when the message has them.
pub open spec fn spec_message_element(v: GenericMessageView) -> ElementView {
    let a1 = match v.message_type {
        Some(t) => attrs_set(Seq::empty(), plain_name("type"@), spec_message_type_text(t)),
        None => Seq::empty(),
    };
    let a2 = match v.id {
        Some(id) => attrs_set(a1, plain_name("id"@), id),
        None => a1,
    };
    let a3 = attrs_set(a2, plain_name("to"@), spec_jid_text(v.to));
    let a4 = attrs_set_jid(a3, "from"@, v.from);
    ElementView {
        attrs: a4,
        children: match v.childs {
            Some(c) => c,
            None => Seq::empty(),
        },
        ..spec_empty_element(plain_name("message"@))
    }
}

fn copy_elements(v: &Vec<XmlElement>) -> (r: Vec<XmlElement>)
    ensures
        r@.map_values(|e: XmlElement| e@) == v@.map_values(|e: XmlElement| e@),
{
    let mut out: Vec<XmlElement> = Vec::new();
    let mut i: usize = 0;
    while i < v.len()
        invariant
            0 <= i <= v@.len(),
            out@.len() == i,
            forall|j: int| 0 <= j < i ==> out@[j]@ == v@[j]@,
        decreases v@.len() - i,
    {
        out.push(v[i].copy());
        i = i + 1;
    }
    assert(out@.map_values(|e: XmlElement| e@) =~= v@.map_values(|e: XmlElement| e@));
    out
}

/// The element of a message always holds a `to` attribute.
pub proof fn lemma_message_element_has_to(v: GenericMessageView)
    ensures
        attr_value(spec_message_element(v).attrs, plain_name("to"@)) is Some,
{
    reveal_strlit("to");
    reveal_strlit("from");
    assert("to"@[0] != "from"@[0]);
    let a1 = match v.message_type {
        Some(t) => attrs_set(Seq::empty(), plain_name("type"@), spec_message_type_text(t)),
        None => Seq::empty(),
    };
    let a2 = match v.id {
        Some(id) => attrs_set(a1, plain_name("id"@), id),
        None => a1,
    };
    let a3 = attrs_set(a2, plain_name("to"@), spec_jid_text(v.to));
    lemma_set_then_get_attr(a2, plain_name("to"@), spec_jid_text(v.to));
    lemma_set_jid_keeps_others(a3, "from"@, v.from, "to"@);
}

impl GenericMessage {
    /// A chat message to `to`.
    pub fn new<T: ToJid>(to: &T) -> (r: GenericMessage)
        requires
            to.spec_to_jid() is Ok,
        ensures
            r@ == (GenericMessageView {
                id: None,
                to: to.spec_to_jid()->Ok_0,
                from: None,
                message_type: Some(MessageType::Chat),
                element: None,
                childs: None,
            }),
    {
        let to = match to.to_jid() {
            Ok(j) => j,
            Err(_) => {
                assert(false);
                Jid::from_full_jid("")
            },
        };
        GenericMessage { id: None, to, from: None, message_type: Some(MessageType::Chat), element: None, childs: None }
    }

    pub fn set_type(&mut self, message_type: Option<MessageType>) -> (r: Result<&mut Self, EventError>)
        ensures
            r matches Ok(m) && (*m)@ == (GenericMessageView { message_type: message_type, ..old(self)@ })
                && *final(self) == *final(m),
    {
        self.message_type = message_type;
        Ok(self)
    }

    pub fn get_type(&self) -> (r: Option<&MessageType>)
        ensures
            match r {
                Some(t) => self@.message_type == Some(*t),
                None => self@.message_type is None,
            },
    {
        self.message_type.as_ref()
    }

    pub fn get_id(&self) -> (r: Option<&String>)
        ensures
            match r {
                Some(i) => self@.id == Some(i@),
                None => self@.id is None,
            },
    {
        self.id.as_ref()
    }

    pub fn set_id(&mut self, id: Option<&str>) -> (r: &mut Self)
        ensures
            (*r)@ == (GenericMessageView { id: crate::element::opt_str_view(id), ..old(self)@ }),
            *final(self) == *final(r),
    {
        self.id = match id {
            Some(id) => Some(id.to_owned()),
            None => None,
        };
        self
    }

    pub fn set_to<T: ToJid>(&mut self, jid: &T) -> (r: Result<&mut Self, EventError>)
        ensures
            match jid.spec_to_jid() {
                Ok(v) => r matches Ok(m) && (*m)@ == (GenericMessageView { to: v, ..old(self)@ })
                    && *final(self) == *final(m),
                Err(_) => r matches Err(f) && f == EventError::InvalidInput && *final(self) == *old(self),
            },
    {
        match jid.to_jid() {
            Ok(j) => {
                self.to = j;
                Ok(self)
            },
            Err(e) => Err(EventError::InvalidInput),
        }
    }

    pub fn get_to(&self) -> (r: &Jid)
        ensures
            r@ == self@.to,
    {
        &self.to
    }

    pub fn get_from(&self) -> (r: Option<&Jid>)
        ensures
            match r {
                Some(j) => self@.from == Some(j@),
                None => self@.from is None,
            },
    {
        self.from.as_ref()
    }

    /// Sets the sender; `None` clears it.
    pub fn set_from<T: ToJid>(&mut self, jid: Option<&T>) -> (r: Result<&mut Self, EventError>)
        ensures
            match jid {
                Some(t) => match t.spec_to_jid() {
                    Ok(v) => r matches Ok(m) && (*m)@ == (GenericMessageView { from: Some(v), ..old(self)@ })
                        && *final(self) == *final(m),
                    Err(_) => r matches Err(f) && f == EventError::InvalidInput && *final(self) == *old(self),
                },
                None => r matches Ok(m) && (*m)@ == (GenericMessageView { from: None, ..old(self)@ })
                    && *final(self) == *final(m),
            },
    {
        match jid {
            Some(t) => match t.to_jid() {
                Ok(j) => {
                    self.from = Some(j);
                    Ok(self)
                },
                Err(_) => Err(EventError::InvalidInput),
            },
            None => {
                self.from = None;
                Ok(self)
            },
        }
    }

    /// A copy of this message.
    pub fn copy(&self) -> (r: GenericMessage)
        ensures
            r@ == self@,
    {
        GenericMessage {
            id: match &self.id {
                Some(i) => Some(i.clone()),
                None => None,
            },
            to: self.to.copy(),
            from: opt_jid_copy(&self.from),
            message_type: self.message_type,
            element: opt_elem_copy(&self.element),
            childs: match &self.childs {
                Some(c) => Some(copy_elements(c)),
                None => None,
            },
        }
    }

    /// The event of a message.
    pub fn to_event(&self) -> (r: Event)
        ensures
            r@ == EventView::Stanza(StanzaEventView::Message(self@), Seq::empty()),
    {
        Event::Stanza(Box::new(StanzaEvent::MessageEvent(Box::new(self.copy()))), String::new())
    }

    /// The element of this message.
    pub fn to_element(&self) -> (r: XmlElement)
        ensures
            r@ == spec_message_element(self@),
    {
        let mut root = XmlElement::new(None, "message");
        match self.message_type {
            Some(t) => {
                let s = t.to_string();
                root.set_attr("type", s.as_str());
            },
            None => {},
        }
        match &self.id {
            Some(id) => root.set_attr("id", id.as_str()),
            None => {},
        }
        let to = self.to.to_string();
        root.set_attr("to", to.as_str());
        set_attr_jid(&mut root, "from", &self.from);
        let ghost before = root@;
        match &self.childs {
            Some(childs) => {
                assert(before.children =~= childs@.map_values(|e: XmlElement| e@).take(0));
                let mut i: usize = 0;
                while i < childs.len()
                    invariant
                        0 <= i <= childs@.len(),
                        root@ == (ElementView {
                            children: childs@.map_values(|e: XmlElement| e@).take(i as int),
                            ..before
                        }),
                    decreases childs@.len() - i,
                {
                    root.append_child(childs[i].copy());
                    assert(childs@.map_values(|e: XmlElement| e@).take(i + 1) =~= childs@.map_values(
                        |e: XmlElement| e@,
                    ).take(i as int).push(childs@[i as int]@));
                    i = i + 1;
                }
                assert(childs@.map_values(|e: XmlElement| e@).take(childs@.len() as int) =~= childs@.map_values(
                    |e: XmlElement| e@,
                ));
            },
            None => {},
        }
        root
    }

    /// Reads a message out of an element; the recipient is required, and an element without
    /// a `to` attribute is refused.
    pub fn from_element(e: XmlElement) -> (r: Result<GenericMessage, EventError>)
        ensures
            message_result_view(r) == spec_message_read(e@),
    {
        if e.get_attr("to").is_none() {
            return Err(EventError::InvalidInput);
        }
        let id = match e.get_attr("id") {
            Some(id) => Some(id.to_owned()),
            None => None,
        };
        let message_type = match MessageType::from_str(get_attr_or_empty(&e, "type")) {
            Ok(t) => Some(t),
            Err(_) => None,
        };
        let to = Jid::from_full_jid(get_attr_or_empty(&e, "to"));
        let from = get_attr_jid(&e, "from");
        let childs = copy_elements(&e.children);
        proof {
            assert(childs@.map_values(|x: XmlElement| x@) =~= e@.children);
        }
        Ok(GenericMessage { id, from, to, message_type, element: Some(e), childs: Some(childs) })
    }

    /// Reads a message out of a parsed document; the recipient is required, and a document
    /// without a `to` attribute is refused.
    pub fn from_parsed(root: XmlElement) -> (r: Result<GenericMessage, EventError>)
        ensures
            message_result_view(r) == spec_message_read_parsed(root@),
    {
        if root.get_attr("to").is_none() {
            return Err(EventError::InvalidInput);
        }
        let id = match root.get_attr("id") {
            Some(id) => Some(id.to_owned()),
            None => None,
        };
        let message_type = match MessageType::from_str(get_attr_or_empty(&root, "type")) {
            Ok(t) => Some(t),
            Err(_) => None,
        };
        let to = Jid::from_full_jid(get_attr_or_empty(&root, "to"));
        let from = Some(Jid::from_full_jid(get_attr_or_empty(&root, "from")));
        Ok(GenericMessage { id, from, to, message_type, element: Some(root), childs: None })
    }

    /// Reads a message out of its text; a text that is no XML document is refused, and so is
    /// a document without a `to` attribute.
    pub fn from_str(s: &str) -> (r: Result<GenericMessage, EventError>)
        ensures
            match xml_parse(s@) {
                Some(e) => message_result_view(r) == spec_message_read_parsed(e),
                None => r == Err::<GenericMessage, EventError>(EventError::InvalidInput),
            },
    {
        match parse_xml(s) {
            Some(root) => GenericMessage::from_parsed(root),
            None => Err(EventError::InvalidInput),
        }
    }
}

} // verus!
