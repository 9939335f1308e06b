use xmpp_proto::element::XmlElement;
use xmpp_proto::events::kinds::IqType;
use xmpp_proto::packet::non_stanza::{Auth, Features, NonStanza, OpenStream, ProceedTls, SASLSuccess, StartTls,
    StreamError, StreamErrorKind, StreamFeatures};
use xmpp_proto::packet::stanza::{GenericIq, IqReadError, Stanza};
use xmpp_proto::packet::{Packet, PacketParsingError};
use xmpp_proto::stream::{read_step, stream_reader_over, XmlStep};
use xmpp_proto::xml::{parse_xml, write_xml};

const EXPECTED_AUTH: &'static str = "<auth xmlns='urn:ietf:params:xml:ns:xmpp-sasl' mechanism='PLAIN'>AGp1bGlldAByMG0zMG15cjBtMzA=</auth>";
const EXPECTED_PROCEEDTLS: &'static str = r#"<proceed xmlns="urn:ietf:params:xml:ns:xmpp-tls" />"#;
const EXPECTED_SUCCESS: &'static str = r#"<success xmlns="urn:ietf:params:xml:ns:xmpp-sasl" />"#;
const INITIAL_STREAM: &'static str = "<stream:stream version='1.0' xmlns:stream='http://etherx.jabber.org/streams' to='example.com' xmlns='jabber:client'>";
const EXPECTED_STARTTLS: &'static str = r#"<stream:features><starttls xmlns="urn:ietf:params:xml:ns:xmpp-tls"><required /></starttls></stream:features>"#;
const EXPECTED_BIND: &'static str = r#"<stream:features><bind xmlns="urn:ietf:params:xml:ns:xmpp-bind" /></stream:features>"#;
const EXPECTED_MECHANISMS: &'static str = r#"<stream:features><mechanisms xmlns="urn:ietf:params:xml:ns:xmpp-sasl"><mechanism>EXTERNAL</mechanism><mechanism>SCRAM-SHA-1-PLUS</mechanism><mechanism>SCRAM-SHA-1</mechanism><mechanism>PLAIN</mechanism></mechanisms></stream:features>"#;

fn start_of(text: &[&str], skip: usize) -> (xmpp_proto::stream::StreamReader, XmlStep) {
    let bytes: Vec<u8> = text.iter().flat_map(|t| t.as_bytes().iter().copied()).collect();
    let mut reader = stream_reader_over(&bytes);
    for _ in 0..skip {
        let _ = read_step(&mut reader);
    }
    let x = read_step(&mut reader);
    (reader, x)
}

#[test]
fn parse_proceed_plain() {
    let element = parse_xml(EXPECTED_AUTH).unwrap();
    let proceed = Auth::from_element(&element);

    assert_eq!(proceed.mechanism().unwrap(), "PLAIN");
    assert_eq!(proceed.challenge().clone().unwrap(), "AGp1bGlldAByMG0zMG15cjBtMzA=");
}

#[test]
fn auth_from() {
    let (mut reader, x) = start_of(&[EXPECTED_AUTH], 1);

    assert!(matches!(x, XmlStep::StartElement(..)));

    if let XmlStep::StartElement(name, attributes) = x {
        let packet = Packet::parse(&mut reader, name, attributes);
        assert!(
            matches!(packet, Ok(Packet::NonStanza(ref stanza)) if matches!(**stanza, NonStanza::Auth(_))),
            "Packet wasn't an Auth, it was: {:?}",
            packet
        );
    }
}

#[test]
fn open_stream_from() {
    let initial_stream = "<stream:stream version='1.0' xmlns:stream='http://etherx.jabber.org/streams' to='example.com' xmlns='jabber:client'>";
    let (mut reader, x) = start_of(&[initial_stream], 1);

    assert!(matches!(x, XmlStep::StartElement(..)));

    if let XmlStep::StartElement(name, attributes) = x {
        let packet = Packet::parse(&mut reader, name, attributes);
        assert!(
            matches!(packet, Ok(Packet::NonStanza(ref stanza)) if matches!(**stanza, NonStanza::OpenStream(_))),
            "Packet wasn't an OpenStream, it was: {:?}",
            packet
        );
    }
}

#[test]
fn open_stream_to_element() {
    let id = uuid::Uuid::new_v4().to_string();
    let lang: String = "en".into();
    let version: String = "1.0".into();
    let to: String = "jid@localhost".into();
    let from: String = "localhost".into();
    let expected = format!(
        r#"<stream:stream xmlns="jabber:client" xmlns:stream="http://etherx.jabber.org/streams" from="{from}" id="{id}" xml:lang="{lang}" to="{to}" version="{version}">"#,
        id = id,
        lang = lang,
        from = from,
        to = to,
        version = version
    );

    let open_stream = OpenStream { id, lang, version, to: Some(to), from: Some(from) };

    let generated = open_stream.to_text();

    assert!(expected == generated, "{} == {}", expected, generated);
}

#[test]
fn proceed_tls_to_element() {
    let proceed = ProceedTls::default();

    let generated = write_xml(&proceed.to_element());

    assert!(EXPECTED_PROCEEDTLS == generated);
}

#[test]
fn proceed_tls_from() {
    let (mut reader, x) = start_of(&[EXPECTED_PROCEEDTLS], 1);

    assert!(matches!(x, XmlStep::StartElement(..)));

    if let XmlStep::StartElement(name, attributes) = x {
        let packet = Packet::parse(&mut reader, name, attributes);
        assert!(
            matches!(packet, Ok(Packet::NonStanza(ref stanza)) if matches!(**stanza, NonStanza::ProceedTls(_))),
            "Packet wasn't an ProceedTls, it was: {:?}",
            packet
        );
    }
}

#[test]
fn sasl_success_from() {
    let packet: Packet = SASLSuccess::default().into();
    assert!(
        matches!(packet, Packet::NonStanza(ref stanza) if matches!(**stanza, NonStanza::SASLSuccess(_))),
        "Packet wasn't an SASLSuccess",
    );
}

#[test]
fn to() {
    let generated = write_xml(&SASLSuccess::default().to_element());

    assert!(EXPECTED_SUCCESS == generated);
}

fn parse_features(expected: &str) -> Result<Packet, PacketParsingError> {
    let (mut reader, x) = start_of(&[INITIAL_STREAM, expected], 2);
    assert!(matches!(x, XmlStep::StartElement(..)));
    match x {
        XmlStep::StartElement(name, attributes) => Packet::parse(&mut reader, name, attributes),
        _ => Err(PacketParsingError::Unknown),
    }
}

#[test]
fn parse_starttls() {
    let stream_feature = StreamFeatures { features: Features::StartTls };

    let generated = write_xml(&stream_feature.to_element());

    assert!(EXPECTED_STARTTLS == generated, "{}", generated);

    let packet = parse_features(EXPECTED_STARTTLS);
    assert!(
        matches!(packet, Ok(Packet::NonStanza(ref stanza)) if matches!(**stanza, NonStanza::StreamFeatures(StreamFeatures { features: Features::StartTls }))),
        "Packet wasn't an StreamFeatures::StartTls, it was: {:?}",
        packet
    );
}

#[test]
fn parse_bind() {
    let stream_feature = StreamFeatures { features: Features::Bind };

    let generated = write_xml(&stream_feature.to_element());

    assert!(EXPECTED_BIND == generated, "{}", generated);

    let packet = parse_features(EXPECTED_BIND);
    assert!(
        matches!(packet, Ok(Packet::NonStanza(ref stanza)) if matches!(**stanza, NonStanza::StreamFeatures(StreamFeatures { features: Features::Bind }))),
        "Packet wasn't an StreamFeatures::Bind, it was: {:?}",
        packet
    );
}

#[test]
fn parse_mechanisms() {
    let mechs: Vec<String> = "EXTERNAL SCRAM-SHA-1-PLUS SCRAM-SHA-1 PLAIN".split_whitespace().map(String::from).collect();
    let stream_feature = StreamFeatures { features: Features::Mechanisms(mechs.clone()) };

    let generated = write_xml(&stream_feature.to_element());

    assert!(EXPECTED_MECHANISMS == generated, "{}", generated);

    let packet = parse_features(EXPECTED_MECHANISMS);
    assert!(
        matches!(packet, Ok(Packet::NonStanza(ref stanza)) if matches!(**stanza, NonStanza::StreamFeatures(StreamFeatures { features: Features::Mechanisms(ref m) }) if m == &mechs)),
        "Packet wasn't an StreamFeatures::Mechanisms, it was: {:?}",
        packet
    );
}

#[test]
fn non_stanza_to_element() {
    assert!(matches!(NonStanza::OpenStream(OpenStream::default()).to_element(), Ok(_)));
    assert!(matches!(NonStanza::StreamFeatures(StreamFeatures::default()).to_element(), Ok(_)));
    assert!(matches!(NonStanza::StartTls(StartTls::default()).to_element(), Err(_)));
    assert!(matches!(NonStanza::ProceedTls(ProceedTls::default()).to_element(), Ok(_)));
    assert!(matches!(NonStanza::SASLSuccess(SASLSuccess::default()).to_element(), Ok(_)));
    assert!(matches!(NonStanza::Auth(Auth::default()).to_element(), Err(_)));
}

#[test]
fn stanza_to_element() {
    let mut element = XmlElement::new(None, "iq");
    element.set_attr("id", &GenericIq::unique_id());
    element.set_attr("type", "get");
    element.append_child(XmlElement::new(None, "test"));
    let iq = GenericIq::from_element(&element).unwrap();

    let _ = Stanza::IQ(iq).to_element();
    let _ = Stanza::Message(XmlElement::new(None, "message")).to_element();
    let _ = Stanza::Presence(XmlElement::new(None, "presence")).to_element();
}

#[test]
fn iq_checks() {
    let mut get = XmlElement::new(None, "iq");
    get.set_attr("id", "a");
    get.set_attr("type", "get");
    assert_eq!(GenericIq::from_element(&get).err(), Some(IqReadError::RequestChildren));

    let mut no_id = XmlElement::new(None, "iq");
    no_id.set_attr("type", "get");
    assert_eq!(GenericIq::from_element(&no_id).err(), Some(IqReadError::IdRequired));

    let mut no_type = XmlElement::new(None, "iq");
    no_type.set_attr("id", "a");
    assert_eq!(GenericIq::from_element(&no_type).err(), Some(IqReadError::TypeRequired));

    let mut bad_type = XmlElement::new(None, "iq");
    bad_type.set_attr("id", "a");
    bad_type.set_attr("type", "whatever");
    assert_eq!(GenericIq::from_element(&bad_type).err(), Some(IqReadError::UnsupportedType));

    let mut result = XmlElement::new(None, "iq");
    result.set_attr("id", "a");
    result.set_attr("type", "RESULT");
    result.append_child(XmlElement::new(None, "x"));
    result.append_child(XmlElement::new(None, "y"));
    assert_eq!(GenericIq::from_element(&result).err(), Some(IqReadError::ResultChildren));

    let mut error = XmlElement::new(None, "iq");
    error.set_attr("id", "a");
    error.set_attr("type", "error");
    assert_eq!(GenericIq::from_element(&error).err(), Some(IqReadError::ErrorChildMissing));
    error.append_child(XmlElement::new(Some("jabber:client"), "error"));
    assert_eq!(GenericIq::from_element(&error).unwrap().get_type(), IqType::Error);

    let mut set = XmlElement::new(None, "iq");
    set.set_attr("id", "a");
    set.set_attr("type", "set");
    set.append_child(XmlElement::new(None, "error"));
    assert_eq!(GenericIq::from_element(&set).err(), Some(IqReadError::UnexpectedError));
}

#[test]
fn iq_keeps_its_element_and_addresses() {
    let element = parse_xml("<iq id='b1' type='set' to='a@b' from='c@d/e'><bind/></iq>").unwrap();
    let iq = GenericIq::from_element(&element).unwrap();
    assert_eq!(iq.get_id(), "b1");
    assert_eq!(iq.get_type(), IqType::SetRequest);
    assert_eq!(iq.get_to().unwrap().to_string(), "a@b");
    assert_eq!(iq.get_from().unwrap().to_string(), "c@d/e");
    assert_eq!(write_xml(&iq.to_element()), write_xml(&element));
}

#[test]
fn element_packets() {
    let packet = Packet::try_from_element(XmlElement::new(None, "presence")).unwrap();
    assert!(matches!(packet, Packet::Stanza(ref s) if matches!(**s, Stanza::Presence(_))));
    let packet = Packet::try_from_element(XmlElement::new(Some("urn:ietf:params:xml:ns:xmpp-tls"), "starttls")).unwrap();
    assert!(matches!(packet, Packet::NonStanza(ref s) if matches!(**s, NonStanza::StartTls(_))));
    assert_eq!(Packet::try_from_element(XmlElement::new(None, "other")).err(), Some(PacketParsingError::Unknown));
    assert_eq!(Packet::try_from_element(XmlElement::new(Some("jabber:client"), "iq")).err(), Some(PacketParsingError::Io));
}

#[test]
fn stream_error_element() {
    let e = StreamError { kind: StreamErrorKind::HostUnknown }.to_element();
    assert_eq!(e.child_count(), 1);
    assert!(e.find(Some("urn:ietf:params:xml:ns:xmpp-streams"), "host-unknown").is_some());
}

#[test]
fn features_roundtrip() {
    for f in [Features::StartTls, Features::Bind, Features::Unknown, Features::Mechanisms(vec!["PLAIN".to_string(), "X".to_string()])] {
        let back = StreamFeatures::from_element(&StreamFeatures { features: f.copy() }.to_element());
        assert_eq!(format!("{:?}", back.features), format!("{:?}", f));
    }
}

#[test]
fn open_stream_header_fields() {
    let (_, x) = start_of(&["<stream:stream version='1.0' xml:lang='fr' to='example.com' xmlns:stream='http://etherx.jabber.org/streams'>"], 1);
    match x {
        XmlStep::StartElement(_, attributes) => {
            let o = OpenStream::from_start_element(&attributes);
            assert_eq!(o.to, Some("example.com".to_string()));
            assert_eq!(o.lang, "fr");
            assert_eq!(o.version, "1.0");
            assert_eq!(o.from, None);
        },
        _ => panic!("no start"),
    }
}

#[test]
fn broken_element_is_an_xml_error() {
    let (mut reader, x) = start_of(&["<message><body>hello</message>"], 1);
    match x {
        XmlStep::StartElement(name, attributes) => {
            let packet = Packet::parse(&mut reader, name, attributes);
            assert_eq!(packet.err(), Some(PacketParsingError::Xml));
        },
        _ => panic!("no start"),
    }
}

#[test]
fn packet_text_of_a_header_keeps_the_stream_open() {
    let packet: Packet = OpenStream { id: "1".into(), lang: "en".into(), version: "1.0".into(), to: None, from: None }.into();
    let text = packet.write_to_string().unwrap();
    assert!(text.starts_with("<stream:stream"));
    assert!(text.ends_with("\">"));
    let auth: Packet = Auth::default().into();
    assert!(auth.write_to_string().is_err());
}
