//! The code the `XmppEvent` and `Iq` derives write for an event type, from the attributes that
//! mark the type (`#[stanza(is = "...", event = "...")]`, `#[non_stanza(event = "...")]`).
use vstd::prelude::*;
use crate::text::{push_char, str_eq};

verus! {

/// A literal of an attribute.
pub enum Lit {
    Str(String),
    Other,
}

/// An item of an attribute: a word, a list of items, or `name = literal`.
pub enum MetaItem {
    Word(String),
    List(String, Vec<NestedMetaItem>),
    NameValue(String, Lit),
}

/// An item inside a list.
pub enum NestedMetaItem {
    MetaItem(MetaItem),
    Literal(Lit),
}

/// An attribute of the type.
pub struct Attribute {
    pub value: MetaItem,
}

/// The name of an attribute.
pub open spec fn spec_attribute_name(a: Attribute) -> Seq<char> {
    match a.value {
        MetaItem::Word(n) => n@,
        MetaItem::List(n, _) => n@,
        MetaItem::NameValue(n, _) => n@,
    }
}

impl Attribute {
    pub fn name(&self) -> (r: &str)
        ensures
            r@ == spec_attribute_name(*self),
    {
        match &self.value {
            MetaItem::Word(n) => n.as_str(),
            MetaItem::List(n, _) => n.as_str(),
            MetaItem::NameValue(n, _) => n.as_str(),
        }
    }
}

/// What `str::to_lowercase` gives for a text.
pub uninterp spec fn lowercase(s: Seq<char>) -> Seq<char>;

/// What `str::to_uppercase` gives for a text.
pub uninterp spec fn uppercase(s: Seq<char>) -> Seq<char>;

/// Every character of the text is ASCII.
pub open spec fn is_ascii_text(s: Seq<char>) -> bool {
    forall|i: int| 0 <= i < s.len() ==> (s[i] as u32) < 128
}

/// An ASCII letter `A`..`Z` in lowercase; any other character as it is.
pub open spec fn ascii_lower_char(c: char) -> char {
    if 'A' <= c && c <= 'Z' {
        ((c as u32) + 32) as char
    } else {
        c
    }
}

/// An ASCII letter `a`..`z` in uppercase; any other character as it is.
pub open spec fn ascii_upper_char(c: char) -> char {
    if 'a' <= c && c <= 'z' {
        ((c as u32) - 32) as char
    } else {
        c
    }
}

/// The lowercase form of a text: letter by letter for ASCII text, else the one `str::to_lowercase`
/// gives.
pub open spec fn spec_lower_text(s: Seq<char>) -> Seq<char> {
    if is_ascii_text(s) {
        s.map_values(|c: char| ascii_lower_char(c))
    } else {
        lowercase(s)
    }
}

/// The uppercase form of a text: letter by letter for ASCII text, else the one
/// `str::to_uppercase` gives.
pub open spec fn spec_upper_text(s: Seq<char>) -> Seq<char> {
    if is_ascii_text(s) {
        s.map_values(|c: char| ascii_upper_char(c))
    } else {
        uppercase(s)
    }
}

/// The lowercase form of a text, by `str::to_lowercase`. The contract claims that the result
/// is the one named `lowercase`, and, as the Unicode lowercase mapping does for ASCII, that an
/// ASCII text has each letter `A`..`Z` turned into `a`..`z` and every other character kept.
#[verifier::external_body]
fn to_lowercase(s: &str) -> (r: String)
    ensures
        r@ == lowercase(s@),
        is_ascii_text(s@) ==> r@ == s@.map_values(|c: char| ascii_lower_char(c)),
{
    s.to_lowercase()
}

/// The uppercase form of a text, by `str::to_uppercase`. The contract claims that the result
/// is the one named `uppercase`, and, as the Unicode uppercase mapping does for ASCII, that an
/// ASCII text has each letter `a`..`z` turned into `A`..`Z` and every other character kept.
#[verifier::external_body]
fn to_uppercase(s: &str) -> (r: String)
    ensures
        r@ == uppercase(s@),
        is_ascii_text(s@) ==> r@ == s@.map_values(|c: char| ascii_upper_char(c)),
{
    s.to_uppercase()
}

/// The text with each `_` replaced by `w`.
pub open spec fn spec_replace_underscore(s: Seq<char>, w: Seq<char>) -> Seq<char>
    decreases s.len(),
{
    if s.len() == 0 {
        Seq::empty()
    } else {
        spec_replace_underscore(s.drop_last(), w) + if s.last() == '_' {
            w
        } else {
            seq![s.last()]
        }
    }
}

/// Replaces each `_` of a text by `w`.
pub fn replace_underscore(s: &str, w: &str) -> (r: String)
    ensures
        r@ == spec_replace_underscore(s@, w@),
{
    let n = s.unicode_len();
    let mut out = String::new();
    let mut i: usize = 0;
    while i < n
        invariant
            n == s@.len(),
            0 <= i <= n,
            out@ == spec_replace_underscore(s@.subrange(0, i as int), w@),
        decreases n - i,
    {
        let c = s.get_char(i);
        proof {
            assert(s@.subrange(0, i + 1).drop_last() =~= s@.subrange(0, i as int));
            assert(s@.subrange(0, i + 1).last() == c);
        }
        if c == '_' {
            out.append(w);
        } else {
            push_char(&mut out, c);
            assert(out@ =~= spec_replace_underscore(s@.subrange(0, i + 1), w@));
        }
        i = i + 1;
    }
    assert(s@.subrange(0, n as int) =~= s@);
    out
}

/// The attributes of a stanza event.
pub struct StanzaAttributes {
    pub event: String,
    pub transpile: bool,
    pub is: String,
}

/// The attributes of a stream event.
pub struct NonStanzaAttributes {
    pub event: String,
    pub value: String,
}

pub const IQ_EVENT_START: &'static str = "match self.generic.get_type() {IqType::Result =>  return Event::Stanza(Box::new(StanzaEvent::IqResponseEvent(Box::new(";
pub const IQ_EVENT_MIDDLE: &'static str = ")))),\n                    _ =>  return Event::Stanza(Box::new(StanzaEvent::IqEvent(Box::new(";
pub const IQ_EVENT_END: &'static str = "))))\n                }";
pub const PRESENCE_EVENT_START: &'static str = "return Event::Stanza(Box::new(StanzaEvent::PresenceEvent(";
pub const PRESENCE_EVENT_END: &'static str = ")))";
pub const MESSAGE_EVENT_START: &'static str = "return Event::Stanza(Box::new(StanzaEvent::MessageEvent(Box::new(";
pub const MESSAGE_EVENT_END: &'static str = "))))";
pub const STANZA_EVENT_START: &'static str = "return Event::Stanza(Box::new(";
pub const NON_STANZA_EVENT_START: &'static str = "return Event::NonStanza(Box::new(";
pub const EVENT_END: &'static str = "))";

/// The body of `to_event` for a stanza event of the given kind, and the kind.
pub open spec fn spec_stanza_format(event: Seq<char>, is: Seq<char>) -> (Seq<char>, Seq<char>) {
    if is == "iq"@ {
        (IQ_EVENT_START@ + event + IQ_EVENT_MIDDLE@ + event + IQ_EVENT_END@, "iq"@)
    } else if is == "presence"@ {
        (PRESENCE_EVENT_START@ + event + PRESENCE_EVENT_END@, "presence"@)
    } else if is == "message"@ {
        (MESSAGE_EVENT_START@ + event + MESSAGE_EVENT_END@, "message"@)
    } else {
        (STANZA_EVENT_START@ + event + EVENT_END@, Seq::empty())
    }
}

/// Concatenation of three texts.
fn concat3(a: &str, b: &str, c: &str) -> (r: String)
    ensures
        r@ == a@ + b@ + c@,
{
    let mut r = a.to_owned();
    r.append(b);
    r.append(c);
    r
}

impl StanzaAttributes {
    pub fn new() -> (r: StanzaAttributes)
        ensures
            r.event@ == "_"@,
            r.transpile,
            r.is@ == Seq::<char>::empty(),
    {
        StanzaAttributes { event: "_".to_owned(), transpile: true, is: String::new() }
    }

    /// The body of `to_event`, and the kind of stanza.
    pub fn format(&self) -> (r: (String, String))
        ensures
            (r.0@, r.1@) == spec_stanza_format(self.event@, self.is@),
    {
        let e = self.event.as_str();
        if str_eq(self.is.as_str(), "iq") {
            let mut body = concat3(IQ_EVENT_START, e, IQ_EVENT_MIDDLE);
            body.append(e);
            body.append(IQ_EVENT_END);
            (body, "iq".to_owned())
        } else if str_eq(self.is.as_str(), "presence") {
            (concat3(PRESENCE_EVENT_START, e, PRESENCE_EVENT_END), "presence".to_owned())
        } else if str_eq(self.is.as_str(), "message") {
            (concat3(MESSAGE_EVENT_START, e, MESSAGE_EVENT_END), "message".to_owned())
        } else {
            (concat3(STANZA_EVENT_START, e, EVENT_END), String::new())
        }
    }
}

impl NonStanzaAttributes {
    pub fn new() -> (r: NonStanzaAttributes)
        ensures
            r.event@ == "self.clone()"@,
            r.value@ == Seq::<char>::empty(),
    {
        NonStanzaAttributes { event: "self.clone()".to_owned(), value: String::new() }
    }

    /// The body of `to_event`; a stream event has no kind.
    pub fn format(&self) -> (r: (String, String))
        ensures
            r.0@ == NON_STANZA_EVENT_START@ + self.event@ + EVENT_END@,
            r.1@ == Seq::<char>::empty(),
    {
        (concat3(NON_STANZA_EVENT_START, self.event.as_str(), EVENT_END), String::new())
    }
}

/// The stanza attributes the items set, before the event is completed: `event = ".."` sets
/// the event, `is = ".."` the kind (in lowercase), the word `no_transpile` turns the
/// conversion off; anything else is passed over.
pub open spec fn spec_stanza_items(items: Seq<NestedMetaItem>) -> (Seq<char>, bool, Seq<char>)
    decreases items.len(),
{
    if items.len() == 0 {
        ("_"@, true, Seq::empty())
    } else {
        let (event, transpile, is) = spec_stanza_items(items.drop_last());
        match items.last() {
            NestedMetaItem::MetaItem(MetaItem::NameValue(tag, Lit::Str(v))) => if tag@ == "event"@ {
                (v@, transpile, is)
            } else if tag@ == "is"@ {
                (event, transpile, spec_lower_text(v@))
            } else {
                (event, transpile, is)
            },
            NestedMetaItem::MetaItem(MetaItem::Word(w)) => if w@ == "no_transpile"@ {
                (event, false, is)
            } else {
                (event, transpile, is)
            },
            _ => (event, transpile, is),
        }
    }
}

/// What `_` in the event stands for: the conversion to the kind's generic stanza, or a clone.
pub open spec fn spec_event_subject(transpile: bool, is: Seq<char>) -> Seq<char> {
    if transpile && is == "message"@ {
        "self.to_message()"@
    } else if transpile && is == "iq"@ {
        "self.to_generic()"@
    } else if transpile && is == "presence"@ {
        "self.to_presence()"@
    } else {
        "self.clone()"@
    }
}

/// The stream attributes the items set: `event = ".."` with `_` standing for a boxed clone,
/// `value = ".."`; anything else is passed over.
pub open spec fn spec_non_stanza_items(items: Seq<NestedMetaItem>) -> (Seq<char>, Seq<char>)
    decreases items.len(),
{
    if items.len() == 0 {
        ("self.clone()"@, Seq::empty())
    } else {
        let (event, value) = spec_non_stanza_items(items.drop_last());
        match items.last() {
            NestedMetaItem::MetaItem(MetaItem::NameValue(tag, Lit::Str(v))) => if tag@ == "event"@ {
                (spec_replace_underscore(v@, "Box::new(self.clone())"@), value)
            } else if tag@ == "value"@ {
                (event, v@)
            } else {
                (event, value)
            },
            _ => (event, value),
        }
    }
}

/// Reads the attributes of a stanza event; `_` in the event is then replaced by what it
/// stands for.
pub fn parse_meta_items_stanza(meta_items: &Vec<NestedMetaItem>) -> (r: StanzaAttributes)
    ensures
        ({
            let (event, transpile, is) = spec_stanza_items(meta_items@);
            &&& r.event@ == spec_replace_underscore(event, spec_event_subject(transpile, is))
            &&& r.transpile == transpile
            &&& r.is@ == is
        }),
{
    let mut attr = StanzaAttributes::new();
    let mut i: usize = 0;
    while i < meta_items.len()
        invariant
            0 <= i <= meta_items@.len(),
            (attr.event@, attr.transpile, attr.is@) == spec_stanza_items(meta_items@.subrange(0, i as int)),
        decreases meta_items@.len() - i,
    {
        proof {
            assert(meta_items@.subrange(0, i + 1).drop_last() =~= meta_items@.subrange(0, i as int));
        }
        match &meta_items[i] {
            NestedMetaItem::MetaItem(MetaItem::NameValue(tag, Lit::Str(v))) => {
                if str_eq(tag.as_str(), "event") {
                    attr.event = v.clone();
                } else if str_eq(tag.as_str(), "is") {
                    attr.is = to_lowercase(v.as_str());
                }
            },
            NestedMetaItem::MetaItem(MetaItem::Word(word)) => {
                if str_eq(word.as_str(), "no_transpile") {
                    attr.transpile = false;
                }
            },
            _ => {},
        }
        i = i + 1;
    }
    assert(meta_items@.subrange(0, meta_items@.len() as int) =~= meta_items@);
    let is = attr.is.as_str();
    let subject = if attr.transpile && str_eq(is, "message") {
        "self.to_message()"
    } else if attr.transpile && str_eq(is, "iq") {
        "self.to_generic()"
    } else if attr.transpile && str_eq(is, "presence") {
        "self.to_presence()"
    } else {
        "self.clone()"
    };
    attr.event = replace_underscore(attr.event.as_str(), subject);
    attr
}

/// Reads the attributes of a stream event.
pub fn parse_meta_items_non_stanza(meta_items: &Vec<NestedMetaItem>) -> (r: NonStanzaAttributes)
    ensures
        (r.event@, r.value@) == spec_non_stanza_items(meta_items@),
{
    let mut attr = NonStanzaAttributes::new();
    let mut i: usize = 0;
    while i < meta_items.len()
        invariant
            0 <= i <= meta_items@.len(),
            (attr.event@, attr.value@) == spec_non_stanza_items(meta_items@.subrange(0, i as int)),
        decreases meta_items@.len() - i,
    {
        proof {
            assert(meta_items@.subrange(0, i + 1).drop_last() =~= meta_items@.subrange(0, i as int));
        }
        match &meta_items[i] {
            NestedMetaItem::MetaItem(MetaItem::NameValue(tag, Lit::Str(v))) => {
                if str_eq(tag.as_str(), "event") {
                    attr.event = replace_underscore(v.as_str(), "Box::new(self.clone())");
                } else if str_eq(tag.as_str(), "value") {
                    attr.value = v.clone();
                }
            },
            _ => {},
        }
        i = i + 1;
    }
    assert(meta_items@.subrange(0, meta_items@.len() as int) =~= meta_items@);
    attr
}

/// The body of `to_event` and the kind of event that the first `non_stanza` or `stanza`
/// attribute gives, when that attribute is a list.
pub open spec fn spec_extract_to_event(attrs: Seq<Attribute>) -> Option<(Seq<char>, Seq<char>)>
    decreases attrs.len(),
{
    if attrs.len() == 0 {
        None
    } else {
        let a = attrs[0];
        if spec_attribute_name(a) == "non_stanza"@ {
            match a.value {
                MetaItem::List(_, items) => {
                    let (event, value) = spec_non_stanza_items(items@);
                    Some((NON_STANZA_EVENT_START@ + event + EVENT_END@, Seq::empty()))
                },
                _ => None,
            }
        } else if spec_attribute_name(a) == "stanza"@ {
            match a.value {
                MetaItem::List(_, items) => {
                    let (event, transpile, is) = spec_stanza_items(items@);
                    Some(spec_stanza_format(spec_replace_underscore(event, spec_event_subject(transpile, is)), is))
                },
                _ => None,
            }
        } else {
            spec_extract_to_event(attrs.drop_first())
        }
    }
}

/// The body of `to_event` and the kind of event, from the first `non_stanza` or `stanza`
/// attribute; the type must have one, and it must be a list.
pub fn extract_to_event(attrs: &Vec<Attribute>) -> (r: (String, String))
    requires
        spec_extract_to_event(attrs@) is Some,
    ensures
        spec_extract_to_event(attrs@) == Some((r.0@, r.1@)),
{
    let mut i: usize = 0;
    assert(attrs@.subrange(0, attrs@.len() as int) =~= attrs@);
    while i < attrs.len()
        invariant
            0 <= i <= attrs@.len(),
            spec_extract_to_event(attrs@) is Some,
            spec_extract_to_event(attrs@.subrange(i as int, attrs@.len() as int)) == spec_extract_to_event(attrs@),
        decreases attrs@.len() - i,
    {
        let ghost rest = attrs@.subrange(i as int, attrs@.len() as int);
        assert(rest[0] == attrs@[i as int]);
        let a = &attrs[i];
        assert(rest.len() > 0);
        if str_eq(a.name(), "non_stanza") {
            match &a.value {
                MetaItem::List(_, items) => {
                    let attributes = parse_meta_items_non_stanza(items);
                    return attributes.format();
                },
                _ => {
                    assert(false);
                },
            }
        } else if str_eq(a.name(), "stanza") {
            match &a.value {
                MetaItem::List(_, items) => {
                    let attributes = parse_meta_items_stanza(items);
                    return attributes.format();
                },
                _ => {
                    assert(false);
                },
            }
        }
        assert(rest.drop_first() =~= attrs@.subrange(i + 1, attrs@.len() as int));
        i = i + 1;
    }
    assert(false);
    (String::new(), String::new())
}

/// The type an event derive is written for: its name, its attributes, and the text of its
/// generic parameters and `where` clause.
pub struct DeriveInput {
    pub ident: String,
    pub attrs: Vec<Attribute>,
    pub ty_generics: String,
    pub where_clause: String,
}

pub const IMPL_ID_IQ: &'static str = "pub fn get_id(&self) -> &str {\nself.generic.get_id()\n}\npub fn set_id<'a, T: ToString + ?Sized>(&'a mut self, id: &T) -> &'a mut Self {\nself.generic.set_id(id);\nself\n}\n";
pub const IMPL_TYPE_IQ: &'static str = "pub fn set_type<'a>(&'a mut self, iq_type: IqType) -> &'a mut Self {\nself.generic.set_type(iq_type);\nself\n}\npub fn get_type(&self) -> IqType {\nself.generic.get_type()\n}\n";
pub const IMPL_TO_MESSAGE: &'static str = "pub fn set_to<'a>(&'a mut self, jid: Jid) -> &'a mut Self {\nself.generic.set_to(jid);\nself\n}\npub fn get_to<'a>(&'a self) -> &'a Jid {\nself.generic.get_to()\n}\n";
pub const IMPL_TO_IQ: &'static str = "pub fn set_to<'a>(&'a mut self, jid: Option<Jid>) -> &'a mut Self {\nself.generic.set_to(jid);\nself\n}\npub fn get_to(&self) -> Option<&Jid> {\nself.generic.get_to()\n}\n";
pub const IMPL_FROM: &'static str = "pub fn set_from<'a>(&'a mut self, jid: Option<Jid>) -> &'a mut Self {\nself.generic.set_from(jid);\nself\n}\npub fn get_from(&self) -> Option<&Jid> {\nself.generic.get_from()\n}\n";
pub const IMPL_TO_PRESENCE: &'static str = "pub fn to_presence(&self) -> Presence {\nPresence::from_element(self.to_element().unwrap()).unwrap()\n}\n";
pub const IMPL_TO_GENERIC_MESSAGE: &'static str = "pub fn to_message(&self) -> GenericMessage {\nGenericMessage::from_element(self.to_element().unwrap()).unwrap()\n}\n";
pub const IMPL_TO_GENERIC_IQ: &'static str = "pub fn to_generic(&self) -> GenericIq {\nGenericIq::from_element(self.to_element().unwrap()).unwrap()\n}\n";
pub const IQ_METHODS: &'static str = "pub fn get_id(&self) -> String {\nself.generic.get_id()\n}\npub fn set_id(self, id: &str) -> Self {\nself.generic.set_id(id);\nself\n}\npub fn get_to(&self) -> Option<String> {\nself.generic.get_to()\n}\npub fn get_from(&self) -> Option<Jid> {\nself.generic.get_from()\n}\npub fn get_type(&self) -> IqType {\nself.generic.get_type()\n}\npub fn set_type(self, t: IqType) -> Self {\nself.generic.set_type(t);\nself\n}\n";

/// The accessors written for a kind of event: the conversion to its generic stanza, the id
/// and type of an IQ, the recipient of a message or an IQ, the sender of both.
pub open spec fn spec_accessors(typology: Seq<char>) -> Seq<char> {
    (if typology == "presence"@ {
        IMPL_TO_PRESENCE@
    } else if typology == "message"@ {
        IMPL_TO_GENERIC_MESSAGE@
    } else if typology == "iq"@ {
        IMPL_TO_GENERIC_IQ@
    } else {
        Seq::empty()
    }) + (if typology == "iq"@ {
        IMPL_ID_IQ@ + IMPL_TYPE_IQ@ + IMPL_TO_IQ@
    } else if typology == "message"@ {
        IMPL_TO_MESSAGE@
    } else {
        Seq::empty()
    }) + (if typology == "iq"@ || typology == "message"@ {
        IMPL_FROM@
    } else {
        Seq::empty()
    })
}

/// The code written for an event type: inside an anonymous constant, the `EventTrait` impl
/// whose `to_event` holds the body the attributes give, and the accessors of its kind.
pub open spec fn spec_expand(ident: Seq<char>, ty_generics: Seq<char>, where_clause: Seq<char>, to_event: Seq<char>,
    typology: Seq<char>) -> Seq<char> {
    "const "@ + spec_upper_text("_IMPL_SERIALIZE_FOR_"@ + ident) + ": () = {\nimpl EventTrait for "@ + ident + ty_generics
        + " "@ + where_clause + " {\nfn to_event(&self) -> Event {\n"@ + to_event + "\n}\n}\nimpl "@ + ident
        + " {\n"@ + spec_accessors(typology) + "}\n};\n"@
}

/// The accessors written for a kind of event.
fn accessors(typology: &str) -> (r: String)
    ensures
        r@ == spec_accessors(typology@),
{
    let mut out = String::new();
    if str_eq(typology, "presence") {
        out.append(IMPL_TO_PRESENCE);
    } else if str_eq(typology, "message") {
        out.append(IMPL_TO_GENERIC_MESSAGE);
    } else if str_eq(typology, "iq") {
        out.append(IMPL_TO_GENERIC_IQ);
    }
    if str_eq(typology, "iq") {
        out.append(IMPL_ID_IQ);
        out.append(IMPL_TYPE_IQ);
        out.append(IMPL_TO_IQ);
    } else if str_eq(typology, "message") {
        out.append(IMPL_TO_MESSAGE);
    }
    if str_eq(typology, "iq") || str_eq(typology, "message") {
        out.append(IMPL_FROM);
    }
    proof {
        assert(out@ =~= spec_accessors(typology@));
    }
    out
}

/// The code the `XmppEvent` derive writes for a type; the type must carry a `non_stanza` or a
/// `stanza` attribute that is a list.
pub fn expand_derive_xmpp_event(input: &DeriveInput) -> (r: Result<String, String>)
    requires
        spec_extract_to_event(input.attrs@) is Some,
    ensures
        ({
            let (to_event, typology) = spec_extract_to_event(input.attrs@)->0;
            r matches Ok(t) && t@ == spec_expand(input.ident@, input.ty_generics@, input.where_clause@, to_event, typology)
        }),
{
    let (to_event, typology) = extract_to_event(&input.attrs);
    let ident = input.ident.as_str();
    let mut dummy = "_IMPL_SERIALIZE_FOR_".to_owned();
    dummy.append(ident);
    let dummy_const = to_uppercase(dummy.as_str());
    let mut out = "const ".to_owned();
    out.append(dummy_const.as_str());
    out.append(": () = {\nimpl EventTrait for ");
    out.append(ident);
    out.append(input.ty_generics.as_str());
    out.append(" ");
    out.append(input.where_clause.as_str());
    out.append(" {\nfn to_event(&self) -> Event {\n");
    out.append(to_event.as_str());
    out.append("\n}\n}\nimpl ");
    out.append(ident);
    out.append(" {\n");
    let methods = accessors(typology.as_str());
    out.append(methods.as_str());
    out.append("}\n};\n");
    Ok(out)
}

/// The code the `Iq` derive writes for a type: accessors that go through its generic IQ.
pub fn impl_iq(name: &str) -> (r: String)
    ensures
        r@ == "impl "@ + name@ + " {\n"@ + IQ_METHODS@ + "}\n"@,
{
    let mut out = "impl ".to_owned();
    out.append(name);
    out.append(" {\n");
    out.append(IQ_METHODS);
    out.append("}\n");
    out
}

/// Whether a type carries the attribute its event is written from: a `non_stanza` or
/// `stanza` list, the first attribute of either name.
pub fn has_event_attribute(attrs: &Vec<Attribute>) -> (r: bool)
    ensures
        r == (spec_extract_to_event(attrs@) is Some),
{
    let mut i: usize = 0;
    assert(attrs@.subrange(0, attrs@.len() as int) =~= attrs@);
    while i < attrs.len()
        invariant
            0 <= i <= attrs@.len(),
            spec_extract_to_event(attrs@.subrange(i as int, attrs@.len() as int)) is Some
                == spec_extract_to_event(attrs@) is Some,
        decreases attrs@.len() - i,
    {
        let ghost rest = attrs@.subrange(i as int, attrs@.len() as int);
        assert(rest[0] == attrs@[i as int]);
        assert(rest.len() > 0);
        let a = &attrs[i];
        if str_eq(a.name(), "non_stanza") || str_eq(a.name(), "stanza") {
            return match &a.value {
                MetaItem::List(..) => true,
                _ => false,
            };
        }
        assert(rest.drop_first() =~= attrs@.subrange(i + 1, attrs@.len() as int));
        i = i + 1;
    }
    false
}

/// The code the `XmppEvent` derive writes for a type; nothing for a type without a
/// `non_stanza` or `stanza` list, which the derive refuses.
pub fn derive_xmpp_event(input: &DeriveInput) -> (r: Option<String>)
    ensures
        match spec_extract_to_event(input.attrs@) {
            Some((to_event, typology)) => r matches Some(t)
                && t@ == spec_expand(input.ident@, input.ty_generics@, input.where_clause@, to_event, typology),
            None => r is None,
        },
{
    if !has_event_attribute(&input.attrs) {
        return None;
    }
    match expand_derive_xmpp_event(input) {
        Ok(t) => Some(t),
        Err(_) => None,
    }
}

} // verus!
