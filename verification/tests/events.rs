use xmpp_proto::config::XMPPConfig;
use xmpp_proto::events::interface::{Event, IqEvent, NonStanzaEvent, StanzaEvent};
use xmpp_proto::events::kinds::IqType;
use xmpp_proto::events::open_stream::OpenStream;
use xmpp_proto::events::ping::Ping;
use xmpp_proto::events::simple::SuccessTls;
use xmpp_proto::jid::Jid;
use xmpp_proto::xml::{parse_xml, write_xml};
use xmpp_proto::credentials::Credentials;
use xmpp_proto::events::auth::Auth;
use xmpp_proto::events::generic::{GenericIq, GenericMessage};
use xmpp_proto::events::kinds::EventError;
use xmpp_proto::events::stream_features::{Features, StreamFeatures};

#[test]
fn success_tls_construct() {
    let x = SuccessTls {};
    let _ = x.clone();
}

#[test]
fn it_works() {}

#[test]
fn open_stream_check_compilation() {
    let initial_stream = "<?xml version='1.0'?><stream:stream version='1.0' xmlns:stream='http://etherx.jabber.org/streams' to='hey' xmlns='jabber:client'>";
    let initial_stream_example = "<?xml version='1.0'?><stream:stream version='1.0' xmlns:stream='http://etherx.jabber.org/streams' to='example.com' xmlns='jabber:client'>";

    assert!(
        OpenStream::new(&XMPPConfig::new().set_domain("hey")).to_string() == initial_stream.to_string(),
        "{}",
        OpenStream::new(&XMPPConfig::new()).to_string()
    );
    assert!(OpenStream::new(&XMPPConfig::new()).to_string() == initial_stream_example.to_string());
}

#[test]
fn open_stream_compile() {
    let o = OpenStream::new(&XMPPConfig::new().set_domain("hey"));

    let e = o.to_event();

    assert!(!e.is_message());
    assert!(!e.is_iq());
    assert!(e.is_non_stanza());

    match o.to_event() {
        Event::NonStanza(non_stanza, _) => match *non_stanza {
            NonStanzaEvent::OpenStreamEvent(_) => {
                assert!(true);
            },
            _ => panic!(""),
        },
        _ => panic!(""),
    }
}

#[test]
fn s2c_ping() {
    let test_str = parse_xml(r#"<iq from='capulet.lit' to='juliet@capulet.lit/balcony' id='s2c1' type='get'><ping xmlns='urn:xmpp:ping'/></iq>"#);

    assert!(test_str.is_some());
    let e = test_str.unwrap();
    let e = Ping::from_element(e).unwrap();
    assert!(e.get_from() == Some(&Jid::from_full_jid("capulet.lit")));
    assert!(e.get_to() == Some(&Jid::from_full_jid("juliet@capulet.lit/balcony")));
    assert!(e.get_id() == "s2c1");
    assert!(e.get_type() == IqType::Get);
}

#[test]
fn s2c_pong() {
    let test_str = parse_xml(r#"<iq from='juliet@capulet.lit/balcony' to='capulet.lit' id='s2c1' type='result'/>"#);

    assert!(test_str.is_some());
    let e = test_str.unwrap();
    let e = Ping::from_element(e).unwrap();
    assert!(e.get_from() == Some(&Jid::from_full_jid("juliet@capulet.lit/balcony")));
    assert!(e.get_to() == Some(&Jid::from_full_jid("capulet.lit")));
    assert!(e.get_id() == "s2c1");
    assert!(e.get_type() == IqType::Result);
}

#[test]
fn s2c_error() {
    let test_str = parse_xml(
        r#"
        <iq from='juliet@capulet.lit/balcony'
            to='capulet.lit'
            id='s2c1'
            type='error'>
            <ping xmlns='urn:xmpp:ping'/>
            <error type='cancel'>
                <service-unavailable
                    xmlns='urn:ietf:params:xml:ns:xmpp-stanzas'/>
            </error>
        </iq>"#,
    );

    assert!(test_str.is_some());
    let e = test_str.unwrap();
    let e = Ping::from_element(e).unwrap();

    assert!(e.get_from() == Some(&Jid::from_full_jid("juliet@capulet.lit/balcony")));
    assert!(e.get_to() == Some(&Jid::from_full_jid("capulet.lit")));
    assert!(e.get_id() == "s2c1");
    assert!(e.get_type() == IqType::Error);
}

#[test]
fn ping_get_without_ping_child_is_refused() {
    let e = parse_xml(r#"<iq from='a' to='b' id='x' type='get'><query/></iq>"#).unwrap();
    assert!(Ping::from_element(e).is_err());
}

#[test]
fn ping_result_with_body_is_refused() {
    let e = parse_xml(r#"<iq from='a' to='b' id='x' type='result'><query/></iq>"#).unwrap();
    assert!(Ping::from_element(e).is_err());
}

#[test]
fn ping_request_is_an_iq_event() {
    let ping = Ping::new(&Jid::from_full_jid("a@b/c"), &Jid::from_full_jid("b"));
    assert_eq!(ping.get_type(), IqType::Get);
    match ping.to_event() {
        Event::Stanza(s, _) => match *s {
            StanzaEvent::IqEvent(i) => assert!(matches!(*i, IqEvent::PingEvent(_))),
            _ => panic!("not a request"),
        },
        _ => panic!("not a stanza"),
    }
}

#[test]
fn iq_type_text_roundtrip() {
    for t in [IqType::Get, IqType::SetRequest, IqType::Result, IqType::Error] {
        assert_eq!(IqType::from_str(&t.to_string()).unwrap(), t);
    }
    assert!(IqType::from_str("bogus").is_err());
}

#[test]
fn auth_carries_the_plain_initial_response() {
    let creds = Credentials { jid: Jid::from_full_jid("juliet@capulet.lit"), password: "r0m30myr0m30".into() };
    let auth = Auth::new(&XMPPConfig::new(), creds);
    let e = auth.to_element();
    assert_eq!(e.text(), "AGp1bGlldAByMG0zMG15cjBtMzA=");
    assert_eq!(e.get_attr("mechanism"), Some("PLAIN"));
    assert_eq!(
        write_xml(&e),
        "<auth xmlns=\"urn:ietf:params:xml:ns:xmpp-sasl\" mechanism=\"PLAIN\">AGp1bGlldAByMG0zMG15cjBtMzA=</auth>"
    );
}

#[test]
fn unique_ids_are_fresh_uuids() {
    let a = GenericIq::unique_id();
    let b = GenericIq::unique_id();
    assert_eq!(a.len(), 36);
    assert_ne!(a, b);
}

#[test]
fn open_stream_reads_its_namespace() {
    let o = OpenStream::from_str("<stream:stream version='1.0' xmlns:stream='http://etherx.jabber.org/streams' to='example.com' xmlns='jabber:client'>").unwrap();
    assert_eq!(o.to, Some("example.com".to_string()));
    assert_eq!(o.xmlns, "jabber:client");
    assert!(OpenStream::from_str("<stream:stream to='a").is_err());
}

#[test]
fn iq_element_reads_back() {
    let mut g = GenericIq::new("q7", IqType::SetRequest);
    let _ = g.set_to(Some(&Jid::from_full_jid("room@muc.example.com/nick")));
    let _ = g.set_from(Some(&Jid::from_full_jid("alice@example.com")));
    let back = GenericIq::from_element(g.to_element()).unwrap();
    assert_eq!(back.get_id(), "q7");
    assert_eq!(back.get_type(), IqType::SetRequest);
    assert_eq!(back.get_to(), Some(&Jid::from_full_jid("room@muc.example.com/nick")));
    assert_eq!(back.get_from(), Some(&Jid::from_full_jid("alice@example.com")));
    assert!(back.get_element().is_some());
}

#[test]
fn features_element_reads_back() {
    use_features(&StreamFeatures::new(&XMPPConfig::new()));
    let e = parse_xml("<stream:features xmlns:stream='http://etherx.jabber.org/streams'><mechanisms xmlns='urn:ietf:params:xml:ns:xmpp-sasl'><mechanism>PLAIN</mechanism><mechanism>X</mechanism></mechanisms></stream:features>").unwrap();
    let f = StreamFeatures::from_element(&e);
    let again = StreamFeatures::from_element(&f.to_element());
    assert!(f.get_features().same_as(&again.get_features()));
    match again.get_features() {
        Features::Mechanims(m) => assert_eq!(m, vec!["PLAIN".to_string(), "X".to_string()]),
        _ => panic!("mechanisms expected"),
    }
}

fn use_features(f: &StreamFeatures) {
    let again = StreamFeatures::from_element(&f.to_element());
    assert!(again.get_features().is_unknown());
}

#[test]
fn message_element_keeps_its_id() {
    use_message();
}

fn use_message() {
    let mut m = xmpp_proto::events::generic::GenericMessage::new(&Jid::from_full_jid("romeo@montague.lit"));
    m.set_id(Some("m1"));
    let _ = m.set_type(Some(xmpp_proto::events::kinds::MessageType::Chat));
    let e = m.to_element();
    assert_eq!(e.get_attr("id"), Some("m1"));
    assert_eq!(e.get_attr("type"), Some("chat"));
}

#[test]
fn message_without_recipient_is_refused() {
    let e = parse_xml("<message><body>hi</body></message>").unwrap();
    assert!(matches!(GenericMessage::from_element(e), Err(EventError::InvalidInput)));
    assert!(matches!(GenericMessage::from_str("<message><body>hi</body></message>"), Err(EventError::InvalidInput)));
}

#[test]
fn message_with_recipient_is_read() {
    let e = parse_xml("<message to='juliet@capulet.lit' id='m1'><body>hi</body></message>").unwrap();
    let m = GenericMessage::from_element(e).unwrap();
    assert_eq!(m.get_to().to_string(), "juliet@capulet.lit");
    assert_eq!(m.get_id().unwrap(), "m1");
    let m = GenericMessage::from_str("<message to='romeo@montague.lit'/>").unwrap();
    assert_eq!(m.get_to().to_string(), "romeo@montague.lit");
}

#[test]
fn ping_has_a_fresh_identifier() {
    let from = Jid::from_full_jid("romeo@montague.lit");
    let to = Jid::from_full_jid("capulet.lit");
    let p = Ping::new(&from, &to);
    assert_eq!(p.generic.get_id().len(), 36);
}
