use xmpp_proto::derive::{derive_xmpp_event, extract_to_event, impl_iq, parse_meta_items_non_stanza,
    parse_meta_items_stanza, replace_underscore, Attribute, DeriveInput, Lit, MetaItem, NestedMetaItem,
    NonStanzaAttributes, StanzaAttributes};

fn name_value(name: &str, value: &str) -> NestedMetaItem {
    NestedMetaItem::MetaItem(MetaItem::NameValue(name.to_string(), Lit::Str(value.to_string())))
}

#[test]
fn stanza_attributes_defaults() {
    let a = StanzaAttributes::new();
    assert_eq!(a.event, "_");
    assert!(a.transpile);
    assert_eq!(a.is, "");
    assert_eq!(a.format(), ("return Event::Stanza(Box::new(_))".to_string(), String::new()));
}

#[test]
fn non_stanza_attributes_defaults() {
    let a = NonStanzaAttributes::new();
    assert_eq!(a.event, "self.clone()");
    assert_eq!(a.format().0, "return Event::NonStanza(Box::new(self.clone()))");
}

#[test]
fn presence_stanza_format() {
    let a = parse_meta_items_stanza(&vec![name_value("is", "Presence")]);
    assert_eq!(a.is, "presence");
    assert_eq!(a.event, "self.to_presence()");
    assert_eq!(a.format(), ("return Event::Stanza(Box::new(StanzaEvent::PresenceEvent(self.to_presence())))".to_string(), "presence".to_string()));
}

#[test]
fn iq_without_transpile() {
    let items = vec![
        name_value("event", "PingEvent(_)"),
        name_value("is", "iq"),
        NestedMetaItem::MetaItem(MetaItem::Word("no_transpile".to_string())),
    ];
    let a = parse_meta_items_stanza(&items);
    assert!(!a.transpile);
    assert_eq!(a.event, "PingEvent(self.clone())");
    let (body, kind) = a.format();
    assert_eq!(kind, "iq");
    assert!(body.starts_with("match self.generic.get_type() {IqType::Result =>  return Event::Stanza(Box::new(StanzaEvent::IqResponseEvent(Box::new(PingEvent(self.clone())))))"));
    assert!(body.ends_with("IqEvent(Box::new(PingEvent(self.clone())))))\n                }"));
}

#[test]
fn non_stanza_event_boxes_a_clone() {
    let a = parse_meta_items_non_stanza(&vec![name_value("event", "NonStanzaEvent::OpenStreamEvent(_)"), name_value("value", "v")]);
    assert_eq!(a.event, "NonStanzaEvent::OpenStreamEvent(Box::new(self.clone()))");
    assert_eq!(a.value, "v");
}

#[test]
fn replace_every_underscore() {
    assert_eq!(replace_underscore("a_b_", "X"), "aXbX");
    assert_eq!(replace_underscore("none", "X"), "none");
}

#[test]
fn extract_takes_the_first_event_attribute() {
    let attrs = vec![
        Attribute { value: MetaItem::Word("derive".to_string()) },
        Attribute { value: MetaItem::List("stanza".to_string(), vec![name_value("is", "message")]) },
        Attribute { value: MetaItem::List("non_stanza".to_string(), vec![]) },
    ];
    let (body, kind) = extract_to_event(&attrs);
    assert_eq!(kind, "message");
    assert_eq!(body, "return Event::Stanza(Box::new(StanzaEvent::MessageEvent(Box::new(self.to_message()))))");
}

#[test]
fn derive_needs_an_event_attribute() {
    let input = DeriveInput { ident: "Ping".to_string(), attrs: vec![], ty_generics: String::new(), where_clause: String::new() };
    assert!(derive_xmpp_event(&input).is_none());
}

#[test]
fn derive_writes_the_event_impl() {
    let input = DeriveInput {
        ident: "Ping".to_string(),
        attrs: vec![Attribute { value: MetaItem::List("non_stanza".to_string(), vec![]) }],
        ty_generics: String::new(),
        where_clause: String::new(),
    };
    let code = derive_xmpp_event(&input).unwrap();
    assert!(code.starts_with("const _IMPL_SERIALIZE_FOR_PING: () = {\nimpl EventTrait for Ping  {\nfn to_event(&self) -> Event {\nreturn Event::NonStanza(Box::new(self.clone()))\n}\n}\nimpl Ping {\n}\n};\n"));
}

#[test]
fn iq_derive_writes_accessors() {
    let code = impl_iq("Bind");
    assert!(code.starts_with("impl Bind {\npub fn get_id(&self) -> String {"));
    assert!(code.ends_with("}\n"));
}

#[test]
fn iq_kind_in_capitals_converts_to_the_generic_iq() {
    let a = parse_meta_items_stanza(&vec![name_value("event", "PingEvent(_)"), name_value("is", "IQ")]);
    assert_eq!(a.is, "iq");
    assert_eq!(a.event, "PingEvent(self.to_generic())");
}
