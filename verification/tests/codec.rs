use xmpp_proto::codec::{XMPPCodec, encode_event};
use xmpp_proto::config::XMPPConfig;
use xmpp_proto::events::interface::{Event, NonStanzaEvent};
use xmpp_proto::events::open_stream::OpenStream;
use xmpp_proto::events::simple::{CloseStream, ProceedTls, SuccessTls};
use xmpp_proto::parser::Parser;
use xmpp_proto::xmpp_parser::XmppParser;

#[test]
fn decode_open_stream() {
    let mut codec = XMPPCodec::new();

    let _ = OpenStream::new(&XMPPConfig::new());

    let buffer = "<?xml version=\'1.0\'?><stream:stream version=\'1.0\' \
                  xmlns:stream=\'http://etherx.jabber.org/streams\' \
                  to=\'example.com\' xmlns=\'jabber:client\'>";

    let event = codec.decode(buffer.as_bytes()).unwrap();
    assert!(event.is_non_stanza());
    assert!(match event {
        Event::NonStanza(x, _) => match *x {
            NonStanzaEvent::OpenStreamEvent(_) => true,
            _ => false,
        },
        _ => false,
    });
}

#[test]
fn encode_open_stream() {
    let mut codec = XMPPCodec::new();

    let e = OpenStream::new(&XMPPConfig::new());

    let x = codec.encode(e.to_event());
    let t = "<stream:stream \
             xmlns=\"jabber:client\" \
             xmlns:stream=\"http://etherx.jabber.org/streams\" \
             to=\"example.com\" version=\"1.0\">";
    assert!(x == t, "{} == {}", x, t);
}

#[test]
fn encode_close_stream() {
    let mut codec = XMPPCodec::new();

    let e = CloseStream::new();

    let buffer = codec.encode(e.to_event());
    assert!(buffer.as_bytes() == b"</stream:stream>");
}

#[test]
fn encode_tls_answers_as_nothing() {
    let config = XMPPConfig::new();
    assert_eq!(encode_event(&ProceedTls::new(&config).to_event()), "");
    assert_eq!(encode_event(&SuccessTls::new(&config).to_event()), "");
}

#[test]
fn test_extract() {
    let mut x = XmppParser::new();

    x.feed("<?xml version='1.0'?><stream:stream id='16243086933621190650' version='1.0' xml:lang='en' xmlns:stream='http://etherx.jabber.org/streams' from='exampl".as_bytes());
    match x.next_event() {
        None => assert!(true),
        Some(_) => assert!(false),
    }

    x.feed(b"e.com' xmlns='jabber:client'>");
    match x.next_event() {
        Some(_) => assert!(true),
        None => assert!(false),
    }

    x.feed(b"<stream:features><starttls xmlns='urn:ietf:params:xml:ns:xmpp-tls'><required/></starttls></stream:features>");
    x.feed(b"</stream:stream>");

    match x.next_event() {
        None => assert!(false),
        Some(_) => assert!(true),
    }
}

#[test]
fn parser_reads_a_proceed() {
    match Parser::parse("<proceed xmlns='' xmlns:stream=''/>") {
        Some((Event::NonStanza(n, source), _)) => {
            assert!(matches!(*n, NonStanzaEvent::ProceedTlsEvent(_)));
            assert_eq!(source, "<proceed xmlns='' xmlns:stream=''/>");
        },
        _ => panic!("no proceed"),
    };
}

#[test]
fn parser_reads_the_end_of_the_stream() {
    match Parser::parse("</stream:stream>") {
        Some((Event::NonStanza(n, _), text)) => {
            assert!(matches!(*n, NonStanzaEvent::CloseStreamEvent));
            assert_eq!(text, "</stream:stream>");
        },
        _ => panic!("no close"),
    };
}

#[test]
fn parser_takes_the_first_pattern_that_matches() {
    match Parser::parse("<?xml version='1.0'?><stream:stream to='a'>") {
        Some((Event::Unknown(_, source), text)) => {
            assert_eq!(text, "<?xml version='1.0'?>");
            assert_eq!(source, "<?xml version='1.0'?>");
        },
        _ => panic!("the declaration comes first"),
    };
}

#[test]
fn parser_reads_a_ping_request() {
    let text = "<iq from='capulet.lit' to='juliet@capulet.lit/balcony' id='s2c1' type='get'><ping xmlns='urn:xmpp:ping'/></iq>";
    match Parser::parse(text) {
        Some((Event::Stanza(s, _), matched)) => {
            assert_eq!(matched, text);
            assert!(matches!(*s, xmpp_proto::events::interface::StanzaEvent::IqRequestEvent(_)));
        },
        _ => panic!("no ping"),
    };
}

#[test]
fn parser_finds_nothing_in_plain_text() {
    assert!(Parser::parse("hello").is_none());
}

#[test]
fn events_received_together_are_given_one_by_one() {
    let mut x = XmppParser::new();
    x.feed(b"<?xml version='1.0'?><stream:stream version='1.0' xmlns:stream='http://etherx.jabber.org/streams' \
             to='example.com' xmlns='jabber:client'><proceed xmlns='urn:ietf:params:xml:ns:xmpp-tls'/>\
             <success xmlns='urn:ietf:params:xml:ns:xmpp-sasl'/>");
    let first = x.next_event().unwrap();
    assert!(matches!(first, Event::NonStanza(ref n, _) if matches!(**n, NonStanzaEvent::OpenStreamEvent(_))));
    let second = x.next_event().unwrap();
    assert!(matches!(second, Event::NonStanza(ref n, _) if matches!(**n, NonStanzaEvent::ProceedTlsEvent(_))));
    let third = x.next_event().unwrap();
    assert!(matches!(third, Event::NonStanza(ref n, _) if matches!(**n, NonStanzaEvent::SuccessTlsEvent(_))));
    assert!(x.next_event().is_none());
}

#[test]
fn an_element_not_closed_yet_gives_no_event() {
    let mut codec = XMPPCodec::new();
    let header = "<stream:stream version='1.0' xmlns:stream='http://etherx.jabber.org/streams' \
                  to='example.com' xmlns='jabber:client'>";
    assert!(codec.decode(header.as_bytes()).is_some());
    assert!(codec.decode(b"<stream:features><starttls xmlns='urn:ietf:params:xml:ns:xmpp-tls'>").is_none());
    let features = codec.decode(b"<required/></starttls></stream:features>").unwrap();
    assert!(matches!(features, Event::NonStanza(ref n, _) if matches!(**n, NonStanzaEvent::StreamFeaturesEvent(_))));
}
