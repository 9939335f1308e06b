use xmpp_proto::config::XMPPConfig;
use xmpp_proto::connection::{Connection, ConnectionState, ConnectingState};
use xmpp_proto::credentials::Credentials;
use xmpp_proto::events::generic::{GenericIq, GenericMessage};
use xmpp_proto::events::interface::{Event, NonStanzaEvent};
use xmpp_proto::events::simple::{CloseStream, ProceedTls};
use xmpp_proto::jid::Jid;
use xmpp_proto::xml::parse_xml;

fn is_open_stream(e: &Event) -> bool {
    matches!(e, Event::NonStanza(n, _) if matches!(**n, NonStanzaEvent::OpenStreamEvent(_)))
}

#[test]
fn connect_queues_the_stream_header() {
    let mut c = Connection::new(&XMPPConfig::new(), None);
    assert_eq!(c.connect().unwrap(), ConnectionState::Connecting(ConnectingState::SentInitialStreamHeader));
    assert_eq!(c.state, ConnectionState::Initial);
    let f = c.next_frame().unwrap();
    assert!(is_open_stream(&f));
    assert!(c.next_frame().is_none());
}

#[test]
fn frames_leave_in_order() {
    let mut c = Connection::new(&XMPPConfig::new(), None);
    c.add_frame(CloseStream::new().to_event());
    c.start_tls();
    assert!(matches!(c.next_frame().unwrap(), Event::NonStanza(n, _) if matches!(*n, NonStanzaEvent::CloseStreamEvent)));
    assert!(is_open_stream(&c.next_frame().unwrap()));
    assert!(c.next_frame().is_none());
}

#[test]
fn close_stream_closes() {
    let mut c = Connection::new(&XMPPConfig::new(), None);
    c.handle_frame(CloseStream::new().to_event());
    assert_eq!(c.state, ConnectionState::Closed);
    assert!(matches!(c.next_frame().unwrap(), Event::NonStanza(n, _) if matches!(*n, NonStanzaEvent::CloseStreamEvent)));
}

#[test]
fn proceed_restarts_the_stream() {
    let mut c = Connection::new(&XMPPConfig::new(), None);
    c.handle_frame(ProceedTls::new(&XMPPConfig::new()).to_event());
    assert_eq!(c.state, ConnectionState::Connecting(ConnectingState::ReceivedProceedCommand));
    assert!(is_open_stream(&c.next_frame().unwrap()));
}

#[test]
fn messages_wait_for_the_connection() {
    let mut c = Connection::new(&XMPPConfig::new(), None);
    let m = GenericMessage::new(&Jid::from_full_jid("a@b"));
    c.handle_frame(m.to_event());
    assert!(c.next_input_frame().is_none());
    c.state = ConnectionState::Connected;
    c.handle_frame(m.to_event());
    assert!(c.next_input_frame().unwrap().is_message());
}

#[test]
fn bind_answer_connects() {
    let creds = Credentials { jid: Jid::from_full_jid("alice@example.com"), password: "pw".into() };
    let mut c = Connection::new(&XMPPConfig::new(), Some(creds));
    let element = parse_xml("<iq type='result' id='bind_1'><bind xmlns='urn:ietf:params:xml:ns:xmpp-bind'><jid>alice@example.com/res</jid></bind></iq>").unwrap();
    let iq = GenericIq::from_element(element).unwrap();
    c.handle_frame(iq.to_event());
    assert_eq!(c.state, ConnectionState::Connected);
    assert_eq!(c.credentials.unwrap().jid, Jid::from_full_jid("alice@example.com/res"));
}

#[test]
fn iq_answer_goes_to_its_waiter() {
    let mut c = Connection::new(&XMPPConfig::new(), None);
    c.wait_for_iq("q1");
    c.wait_for_iq("q1");
    assert_eq!(c.iq_queue.len(), 1);
    let element = parse_xml("<iq type='result' id='q1'><query/></iq>").unwrap();
    let iq = GenericIq::from_element(element).unwrap();
    c.handle_frame(iq.to_event());
    let (id, _) = c.take_iq_reply().unwrap();
    assert_eq!(id, "q1");
    assert!(c.iq_queue.is_empty());
    assert!(c.next_input_frame().is_none());

    let element = parse_xml("<iq type='result' id='q2'><query/></iq>").unwrap();
    let iq = GenericIq::from_element(element).unwrap();
    c.handle_frame(iq.to_event());
    assert!(c.take_iq_reply().is_none());
    assert!(c.next_input_frame().unwrap().is_iq());
}

#[test]
fn features_ask_for_tls_first() {
    let mut c = Connection::new(&XMPPConfig::new(), None);
    let features = xmpp_proto::events::stream_features::StreamFeatures::new(&XMPPConfig::new());
    let event = match features.to_event() {
        Event::NonStanza(n, _) => Event::NonStanza(n, "<stream:features><starttls/><mechanisms>PLAIN</mechanisms></stream:features>".to_string()),
        e => e,
    };
    c.handle_frame(event);
    assert_eq!(c.state, ConnectionState::Connecting(ConnectingState::ReceivedInitialStreamFeatures));
    assert!(matches!(c.next_frame().unwrap(), Event::NonStanza(n, _) if matches!(*n, NonStanzaEvent::StartTlsEvent(_))));
}

#[test]
fn inputs_reach_the_reader_in_order() {
    let mut c = Connection::new(&XMPPConfig::new(), None);
    c.add_input_frame(GenericMessage::new(&Jid::from_full_jid("a@b")).to_event());
    c.add_input_frame(CloseStream::new().to_event());
    assert!(c.next_input_frame().unwrap().is_message());
    assert!(c.next_input_frame().unwrap().is_non_stanza());
    assert!(c.next_input_frame().is_none());
}

#[test]
fn handling_keeps_what_was_queued() {
    let mut c = Connection::new(&XMPPConfig::new(), None);
    c.start_tls();
    c.handle_frame(CloseStream::new().to_event());
    assert!(is_open_stream(&c.next_frame().unwrap()));
    assert!(matches!(c.next_frame().unwrap(), Event::NonStanza(n, _) if matches!(*n, NonStanzaEvent::CloseStreamEvent)));
}

fn features_with(source: &str) -> Event {
    let features = xmpp_proto::events::stream_features::StreamFeatures::new(&XMPPConfig::new());
    match features.to_event() {
        Event::NonStanza(n, _) => Event::NonStanza(n, source.to_string()),
        e => e,
    }
}

#[test]
fn whole_negotiation() {
    let creds = Credentials { jid: Jid::from_full_jid("alice@example.com"), password: "pw".into() };
    let mut c = Connection::new(&XMPPConfig::new(), Some(creds));
    let _ = c.connect();
    assert!(is_open_stream(&c.next_frame().unwrap()));

    c.handle_frame(features_with("<stream:features><starttls xmlns='urn:ietf:params:xml:ns:xmpp-tls'><required/></starttls></stream:features>"));
    assert!(matches!(c.next_frame().unwrap(), Event::NonStanza(n, _) if matches!(*n, NonStanzaEvent::StartTlsEvent(_))));

    c.handle_frame(ProceedTls::new(&XMPPConfig::new()).to_event());
    assert!(is_open_stream(&c.next_frame().unwrap()));

    c.handle_frame(features_with("<stream:features><mechanisms><mechanism>PLAIN</mechanism></mechanisms></stream:features>"));
    assert_eq!(c.state, ConnectionState::Connecting(ConnectingState::ReceivedAuthenticatedFeatures));
    assert!(matches!(c.next_frame().unwrap(), Event::NonStanza(n, _) if matches!(*n, NonStanzaEvent::AuthEvent(_))));

    c.handle_frame(xmpp_proto::events::simple::SuccessTls::new(&XMPPConfig::new()).to_event());
    assert!(is_open_stream(&c.next_frame().unwrap()));

    c.handle_frame(features_with("<stream:features><bind/><session/></stream:features>"));
    match c.next_frame().unwrap() {
        Event::Stanza(s, _) => assert!(matches!(*s, xmpp_proto::events::interface::StanzaEvent::IqEvent(_))),
        _ => panic!("bind request expected"),
    }

    let element = parse_xml("<iq type='result' id='bind_1'><bind xmlns='urn:ietf:params:xml:ns:xmpp-bind'><jid>alice@example.com/home</jid></bind></iq>").unwrap();
    c.handle_frame(GenericIq::from_element(element).unwrap().to_event());
    assert_eq!(c.state, ConnectionState::Connected);
    assert_eq!(c.credentials.as_ref().unwrap().jid, Jid::from_full_jid("alice@example.com/home"));

    c.compile_presence();
    assert!(c.next_frame().unwrap().is_presence());
}
