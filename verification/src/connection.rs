//! The client side of a connection: the negotiation state machine and the queues of frames
//! to send and of events received.
use vstd::prelude::*;
use std::collections::VecDeque;
use crate::config::XMPPConfig;
use crate::credentials::Credentials;
use crate::element::{ElementView, qname, find_child};
use crate::jid::{Jid, JidView, spec_parse_jid};
use crate::ns;
use crate::text::{contains_str, has_substring, str_eq};
use crate::events::kinds::IqType;
use crate::events::generic::{GenericIq, GenericIqView};
use crate::events::interface::{Event, EventView, IqEvent, IqEventView, NonStanzaEvent, NonStanzaEventView, StanzaEvent, StanzaEventView, FromGeneric};
use crate::events::open_stream::{OpenStream, OpenStreamView};
use crate::events::simple::StartTls;
use crate::events::auth::Auth;
use crate::events::bind::Bind;
use crate::events::ping::Ping;
use crate::events::presence::{Presence, PresenceView};
use crate::parser::opt_event_view;
use crate::pending::{PendingIqs, ids_distinct};

verus! {

#[derive(Clone, Copy, Debug, PartialEq, Eq, Structural)]
pub enum ConnectionState {
    Initial,
    Connecting(ConnectingState),
    Connected,
    Closed,
    Error,
}

#[derive(Clone, Copy, Debug, PartialEq, Eq, Structural)]
pub enum ConnectingState {
    Initial,
    SentInitialStreamHeader,
    ReceivedInitialStream,
    ReceivedInitialStreamFeatures,
    SentStarttlsCommand,
    ReceivedProceedCommand,
    ReceivedFailureTls,
    TlsNegociationSuccess,
    TlsNegociationFailed,
    SentTlsStreamHeader,
    ReceivedTlsStream,
    ReceivedStreamFeatures,
    SentAuthenticationMechanism,
    ReceivedAuthenticationMechanismError,
    ReceivedSuccessfulAuthentification,
    ReceivedFailureAuthentification,
    SentAuthenticatedStream,
    ReceivedAuthenticatedFeatures,
    Error,
}

pub struct Connection {
    pub state: ConnectionState,
    /// the configuration the connection was made with
    pub config: XMPPConfig,
    pub credentials: Option<Credentials>,
    /// list of message to send
    pub frame_queue: VecDeque<Event>,
    /// events received, waiting to be read
    pub input_queue: VecDeque<Event>,
    /// identifiers of the IQ requests whose answer a caller waits for
    pub iq_queue: PendingIqs,
    /// answers to waited-for IQ requests, with their identifier, for the caller to take
    pub iq_replies: VecDeque<(String, Event)>,
}

/// The mathematical value of a connection.
pub struct ConnectionView {
    pub state: ConnectionState,
    pub domain: Seq<char>,
    pub credentials: Option<(JidView, Seq<char>)>,
    pub frames: Seq<EventView>,
    pub inputs: Seq<EventView>,
    pub iq_pending: Seq<Seq<char>>,
    pub iq_replies: Seq<(Seq<char>, EventView)>,
}

pub open spec fn creds_view(c: Option<Credentials>) -> Option<(JidView, Seq<char>)> {
    match c {
        Some(c) => Some((c.jid@, c.password@)),
        None => None,
    }
}

impl View for Connection {
    type V = ConnectionView;

    open spec fn view(&self) -> ConnectionView {
        ConnectionView {
            state: self.state,
            domain: self.config.domain(),
            credentials: creds_view(self.credentials),
            frames: self.frame_queue@.map_values(|e: Event| e@),
            inputs: self.input_queue@.map_values(|e: Event| e@),
            iq_pending: self.iq_queue.ids(),
            iq_replies: self.iq_replies@.map_values(|p: (String, Event)| (p.0@, p.1@)),
        }
    }
}

/// The connection with a frame queued to send.
pub open spec fn spec_push_frame(c: ConnectionView, f: EventView) -> ConnectionView {
    ConnectionView { frames: c.frames.push(f), ..c }
}

/// The oldest frame to send, taken out of the connection.
pub open spec fn spec_pop_frame(c: ConnectionView) -> (Option<EventView>, ConnectionView) {
    if c.frames.len() == 0 {
        (None, c)
    } else {
        (Some(c.frames[0]), ConnectionView { frames: c.frames.drop_first(), ..c })
    }
}

/// The connection with an event kept for the reader.
pub open spec fn spec_push_input(c: ConnectionView, e: EventView) -> ConnectionView {
    ConnectionView { inputs: c.inputs.push(e), ..c }
}

/// The oldest event kept for the reader, taken out of the connection.
pub open spec fn spec_pop_input(c: ConnectionView) -> (Option<EventView>, ConnectionView) {
    if c.inputs.len() == 0 {
        (None, c)
    } else {
        (Some(c.inputs[0]), ConnectionView { inputs: c.inputs.drop_first(), ..c })
    }
}

/// The connection waiting for the answer to the IQ `id`; an identifier already waited for
/// is not added twice.
pub open spec fn spec_wait_for_iq(c: ConnectionView, id: Seq<char>) -> ConnectionView {
    if c.iq_pending.contains(id) {
        c
    } else {
        ConnectionView { iq_pending: c.iq_pending.push(id), ..c }
    }
}

/// The oldest answer handed over, taken out of the connection.
pub open spec fn spec_pop_iq_reply(c: ConnectionView) -> (Option<(Seq<char>, EventView)>, ConnectionView) {
    if c.iq_replies.len() == 0 {
        (None, c)
    } else {
        (Some(c.iq_replies[0]), ConnectionView { iq_replies: c.iq_replies.drop_first(), ..c })
    }
}

/// Whether the negotiation on a stream is over in this state.
pub open spec fn spec_negotiation_settled(state: ConnectionState, secured: bool) -> bool {
    ||| state == ConnectionState::Closed
    ||| state == ConnectionState::Error
    ||| (secured && state == ConnectionState::Connected)
    ||| (!secured && state == ConnectionState::Connecting(ConnectingState::ReceivedProceedCommand))
}

/// The JID of the credentials, when there are some.
pub open spec fn creds_jid(c: Option<(JidView, Seq<char>)>) -> JidView {
    match c {
        Some((j, _)) => j,
        None => arbitrary(),
    }
}

/// The stream header a client sends to the configured domain.
pub open spec fn spec_open_stream_event(domain: Seq<char>) -> EventView {
    EventView::NonStanza(
        NonStanzaEventView::OpenStream(OpenStreamView { to: Some(domain), xmlns: ns::CLIENT@ }),
        Seq::empty(),
    )
}

/// The bind request sent when the server offers a session: a set, identified `bind_1`.
pub open spec fn spec_bind_request() -> EventView {
    EventView::Stanza(
        StanzaEventView::Iq(
            IqEventView::Bind(
                GenericIqView { id: "bind_1"@, iq_type: IqType::SetRequest, to: None, from: None, element: None },
                Some(spec_parse_jid(Seq::empty())),
            ),
        ),
        Seq::empty(),
    )
}

/// The authentication request sent with the credentials, or the default ones.
pub open spec fn spec_auth_request(c: Option<(JidView, Seq<char>)>) -> EventView {
    match c {
        Some((j, p)) => EventView::NonStanza(NonStanzaEventView::Auth(j, p), Seq::empty()),
        None => EventView::NonStanza(
            NonStanzaEventView::Auth(crate::credentials::guest_jid(), "guest"@),
            Seq::empty(),
        ),
    }
}

/// An event received while the connection is established is kept for the reader; before,
/// it is dropped.
pub open spec fn spec_keep_if_connected(c: ConnectionView, e: EventView) -> ConnectionView {
    if c.state == ConnectionState::Connected {
        ConnectionView { inputs: c.inputs.push(e), ..c }
    } else {
        c
    }
}

/// `i` is the first position of `id` among the waited-for identifiers.
pub open spec fn is_first_pending(p: Seq<Seq<char>>, id: Seq<char>, i: int) -> bool {
    &&& 0 <= i < p.len()
    &&& p[i] == id
    &&& forall|j: int| 0 <= j < i ==> p[j] != id
}

/// An answer to an IQ: handed over when its identifier is waited for (which then stops
/// being waited for), kept for the reader otherwise.
pub open spec fn spec_handle_iq(c: ConnectionView, id: Seq<char>, e: EventView) -> ConnectionView {
    if exists|i: int| is_first_pending(c.iq_pending, id, i) {
        let i = choose|i: int| is_first_pending(c.iq_pending, id, i);
        ConnectionView { iq_pending: c.iq_pending.remove(i), iq_replies: c.iq_replies.push((id, e)), ..c }
    } else {
        ConnectionView { inputs: c.inputs.push(e), ..c }
    }
}

pub open spec fn bind_qname() -> crate::element::QualNameView {
    qname(Some(ns::BIND@), "bind"@)
}

/// The answer to the bind request: when it holds `<bind><jid>..</jid></bind>`, the
/// connection is established and the credentials take the JID the server bound.
pub open spec fn spec_bind_response(c: ConnectionView, element: Option<ElementView>) -> ConnectionView {
    match element {
        Some(body) => match find_child(body, bind_qname()) {
            Some(b) => match find_child(b, qname(Some(ns::BIND@), "jid"@)) {
                Some(j) => ConnectionView {
                    state: ConnectionState::Connected,
                    credentials: match c.credentials {
                        Some((_, p)) => Some((spec_parse_jid(j.text), p)),
                        None => None,
                    },
                    ..c
                },
                None => c,
            },
            None => c,
        },
        None => c,
    }
}

/// A generic IQ answer: a result holding a bind element answers the bind request; another
/// result with a body is an IQ answer; anything else is dropped.
pub open spec fn spec_generic_answer(c: ConnectionView, g: GenericIqView, e: EventView) -> ConnectionView {
    if g.iq_type == IqType::Result {
        match g.element {
            Some(body) => if find_child(body, bind_qname()) is Some {
                spec_bind_response(c, g.element)
            } else {
                spec_handle_iq(c, g.id, e)
            },
            None => c,
        }
    } else {
        c
    }
}

/// How the connection answers the stream features, depending on the text they were read
/// from: TLS first, then PLAIN authentication, then binding a session.
pub open spec fn spec_handle_features(c: ConnectionView, source: Seq<char>) -> ConnectionView {
    if has_substring(source, "starttls"@) {
        ConnectionView {
            state: ConnectionState::Connecting(ConnectingState::ReceivedInitialStreamFeatures),
            frames: c.frames.push(EventView::NonStanza(NonStanzaEventView::StartTls, Seq::empty())),
            ..c
        }
    } else if has_substring(source, "PLAIN"@) {
        ConnectionView {
            state: ConnectionState::Connecting(ConnectingState::ReceivedAuthenticatedFeatures),
            frames: c.frames.push(spec_auth_request(c.credentials)),
            ..c
        }
    } else if has_substring(source, "session"@) {
        ConnectionView { frames: c.frames.push(spec_bind_request()), ..c }
    } else {
        ConnectionView { state: ConnectionState::Connecting(ConnectingState::ReceivedInitialStream), ..c }
    }
}

/// The connection after it handled a received event.
pub open spec fn spec_handle_frame(c: ConnectionView, e: EventView) -> ConnectionView {
    match e {
        EventView::NonStanza(n, source) => match n {
            NonStanzaEventView::CloseStream => ConnectionView {
                state: ConnectionState::Closed,
                frames: c.frames.push(e),
                ..c
            },
            NonStanzaEventView::ProceedTls => ConnectionView {
                state: ConnectionState::Connecting(ConnectingState::ReceivedProceedCommand),
                frames: c.frames.push(spec_open_stream_event(c.domain)),
                ..c
            },
            NonStanzaEventView::SuccessTls => ConnectionView {
                frames: c.frames.push(spec_open_stream_event(c.domain)),
                ..c
            },
            NonStanzaEventView::StreamFeatures(_) => spec_handle_features(c, source),
            _ => spec_keep_if_connected(c, e),
        },
        EventView::Stanza(s, _) => match s {
            StanzaEventView::Iq(IqEventView::Generic(g)) => spec_generic_answer(c, g, e),
            StanzaEventView::IqResponse(IqEventView::Generic(g)) => spec_generic_answer(c, g, e),
            StanzaEventView::IqResponse(IqEventView::Bind(g, _)) => spec_bind_response(c, g.element),
            _ => spec_keep_if_connected(c, e),
        },
        EventView::Unknown(_) => spec_keep_if_connected(c, e),
    }
}

proof fn lemma_first_pending_unique(p: Seq<Seq<char>>, id: Seq<char>, i: int)
    requires
        is_first_pending(p, id, i),
    ensures
        exists|k: int| is_first_pending(p, id, k),
        (choose|k: int| is_first_pending(p, id, k)) == i,
{
    let k = choose|k: int| is_first_pending(p, id, k);
    if k < i {
        assert(p[k] != id);
    }
    if i < k {
        assert(p[i] != id);
    }
}

impl Connection {
    pub fn new(config: &XMPPConfig, credentials: Option<Credentials>) -> (r: Connection)
        ensures
            r@ == (ConnectionView {
                state: ConnectionState::Initial,
                domain: config.domain(),
                credentials: creds_view(credentials),
                frames: Seq::empty(),
                inputs: Seq::empty(),
                iq_pending: Seq::empty(),
                iq_replies: Seq::empty(),
            }),
    {
        let r = Connection {
            state: ConnectionState::Initial,
            credentials: credentials,
            config: config.copy(),
            frame_queue: VecDeque::new(),
            input_queue: VecDeque::new(),
            iq_queue: PendingIqs::new(),
            iq_replies: VecDeque::new(),
        };
        proof {
            assert(r@.frames =~= Seq::<EventView>::empty());
            assert(r@.inputs =~= Seq::<EventView>::empty());
            assert(r@.iq_pending =~= Seq::<Seq<char>>::empty());
            assert(r@.iq_replies =~= Seq::<(Seq<char>, EventView)>::empty());
        }
        r
    }

    /// Queues the stream header; the state is left as it is and the state the connection
    /// is heading to is given back.
    pub fn connect(&mut self) -> (r: Result<ConnectionState, crate::events::kinds::EventError>)
        ensures
            r == Ok::<ConnectionState, crate::events::kinds::EventError>(
                ConnectionState::Connecting(ConnectingState::SentInitialStreamHeader),
            ),
            final(self)@ == (ConnectionView { frames: old(self)@.frames.push(spec_open_stream_event(old(self)@.domain)), ..old(self)@ }),
    {
        self.start_tls();
        Ok(ConnectionState::Connecting(ConnectingState::SentInitialStreamHeader))
    }

    /// Takes the oldest frame to send.
    pub fn next_frame(&mut self) -> (r: Option<Event>)
        ensures
            (opt_event_view(r), final(self)@) == spec_pop_frame(old(self)@),
    {
        let ghost pre = self@;
        let r = self.frame_queue.pop_front();
        proof {
            if pre.frames.len() > 0 {
                assert(self@.frames =~= pre.frames.drop_first());
            } else {
                assert(self@.frames =~= pre.frames);
            }
        }
        r
    }

    /// Takes the oldest received event.
    pub fn next_input_frame(&mut self) -> (r: Option<Event>)
        ensures
            (opt_event_view(r), final(self)@) == spec_pop_input(old(self)@),
    {
        let ghost pre = self@;
        let r = self.input_queue.pop_front();
        proof {
            if pre.inputs.len() > 0 {
                assert(self@.inputs =~= pre.inputs.drop_first());
            } else {
                assert(self@.inputs =~= pre.inputs);
            }
        }
        r
    }

    /// Keeps a received event for the reader.
    pub fn add_input_frame(&mut self, f: Event)
        ensures
            final(self)@ == spec_push_input(old(self)@, f@),
    {
        let ghost pre = self@;
        self.input_queue.push_back(f);
        proof {
            assert(self@.inputs =~= pre.inputs.push(f@));
        }
    }

    /// Queues a frame to send.
    pub fn add_frame(&mut self, f: Event)
        ensures
            final(self)@ == spec_push_frame(old(self)@, f@),
    {
        let ghost pre = self@;
        self.frame_queue.push_back(f);
        proof {
            assert(self@.frames =~= pre.frames.push(f@));
        }
    }

    /// Waits for the answer to the IQ `id`: when it arrives, it is handed over instead of
    /// being kept for the reader.
    pub fn wait_for_iq(&mut self, id: &str)
        ensures
            final(self)@ == spec_wait_for_iq(old(self)@, id@),
    {
        let ghost pre = self@;
        self.iq_queue.insert(id);
        proof {
            assert(self@.frames =~= pre.frames);
            assert(self@.inputs =~= pre.inputs);
            assert(self@.iq_replies =~= pre.iq_replies);
        }
    }

    /// Takes the oldest answer handed over, with the identifier it answers.
    pub fn take_iq_reply(&mut self) -> (r: Option<(String, Event)>)
        ensures
            (match r {
                Some((id, e)) => Some((id@, e@)),
                None => None,
            }, final(self)@) == spec_pop_iq_reply(old(self)@),
    {
        let ghost pre = self@;
        let r = self.iq_replies.pop_front();
        proof {
            if pre.iq_replies.len() > 0 {
                assert(self@.iq_replies =~= pre.iq_replies.drop_first());
            } else {
                assert(self@.iq_replies =~= pre.iq_replies);
            }
        }
        r
    }

    /// Whether the part of the negotiation run on one stream is over: on the plain stream once
    /// the server agreed to start TLS, on the secured stream once the connection is established;
    /// on either once the connection is closed or failed.
    pub fn negotiation_settled(&self, secured: bool) -> (r: bool)
        ensures
            r == (spec_negotiation_settled(self@.state, secured)),
    {
        match self.state {
            ConnectionState::Closed | ConnectionState::Error => true,
            ConnectionState::Connected => secured,
            ConnectionState::Connecting(ConnectingState::ReceivedProceedCommand) => !secured,
            _ => false,
        }
    }

    /// Queues a new stream header, as after the TLS handshake.
    pub fn start_tls(&mut self)
        ensures
            final(self)@ == (ConnectionView { frames: old(self)@.frames.push(spec_open_stream_event(old(self)@.domain)), ..old(self)@ }),
    {
        let event = OpenStream::new(&self.config).to_event();
        self.add_frame(event);
    }

    /// A ping from the connected JID to the configured domain.
    pub fn compile_ping(&mut self) -> (r: Ping)
        requires
            old(self)@.credentials is Some,
        ensures
            final(self)@ == old(self)@,
            r.generic@.iq_type == IqType::Get,
            r.generic@.from == Some(creds_jid(old(self)@.credentials)),
            r.generic@.to == Some(spec_parse_jid(old(self)@.domain)),
            r.generic@.element is None,
            r.generic@.id.len() == 36,
    {
        match &self.credentials {
            Some(c) => {
                let domain = self.config.get_domain();
                Ping::new(&c.jid, &domain)
            },
            None => {
                assert(false);
                Ping::default()
            },
        }
    }

    /// Queues the first presence, once there are credentials.
    pub fn compile_presence(&mut self)
        ensures
            final(self)@ == (if old(self)@.credentials is Some {
                ConnectionView {
                    frames: old(self)@.frames.push(
                        EventView::Stanza(
                            StanzaEventView::Presence(PresenceView { to: None, from: None, presence_type: None }),
                            Seq::empty(),
                        ),
                    ),
                    ..old(self)@
                }
            } else {
                old(self)@
            }),
    {
        if self.credentials.is_some() {
            let presence = Presence::new();
            self.add_frame(presence.to_event());
        }
    }

    /// Hands an IQ answer over to whoever waits for its identifier, or keeps it for the
    /// reader.
    pub fn handle_iq(&mut self, id: &str, event: Event)
        ensures
            final(self)@ == spec_handle_iq(old(self)@, id@, event@),
            old(self)@.iq_pending.contains(id@) ==> final(self)@.iq_replies == old(self)@.iq_replies.push((id@, event@))
                && !final(self)@.iq_pending.contains(id@)
                && final(self)@.iq_pending.len() == old(self)@.iq_pending.len() - 1
                && final(self)@.inputs == old(self)@.inputs,
            !old(self)@.iq_pending.contains(id@) ==> final(self)@ == spec_push_input(old(self)@, event@),
    {
        let ghost pre = self@;
        self.iq_queue.distinct();
        proof {
            lemma_iq_answer_handed_over(pre, id@, event@);
        }
        match self.iq_queue.position(id) {
            Some(i) => {
                proof {
                    assert forall|j: int| 0 <= j < i implies pre.iq_pending[j] != id@ by {
                        assert(pre.iq_pending[j] != pre.iq_pending[i as int]);
                    }
                    assert(is_first_pending(pre.iq_pending, id@, i as int));
                    lemma_first_pending_unique(pre.iq_pending, id@, i as int);
                }
                let key = self.iq_queue.remove(i);
                self.iq_replies.push_back((key, event));
                proof {
                    assert(self@.frames =~= pre.frames);
                    assert(self@.inputs =~= pre.inputs);
                    assert(self@.iq_pending =~= pre.iq_pending.remove(i as int));
                    assert(self@.iq_replies =~= pre.iq_replies.push((id@, event@)));
                }
            },
            None => {
                proof {
                    if exists|k: int| is_first_pending(pre.iq_pending, id@, k) {
                        let k = choose|k: int| is_first_pending(pre.iq_pending, id@, k);
                        assert(pre.iq_pending.contains(id@));
                    }
                }
                self.add_input_frame(event);
            },
        }
    }

    /// Keeps the event for the reader when the connection is established.
    fn keep_if_connected(&mut self, e: Event)
        ensures
            final(self)@ == spec_keep_if_connected(old(self)@, e@),
    {
        if self.state == ConnectionState::Connected {
            self.add_input_frame(e);
        }
    }

    /// The answer to the bind request.
    fn handle_bind_response(&mut self, generic: &GenericIq)
        ensures
            final(self)@ == spec_bind_response(old(self)@, generic@.element),
    {
        match generic.get_element() {
            Some(body) => match body.find(Some(ns::BIND), "bind") {
                Some(bind) => match bind.find(Some(ns::BIND), "jid") {
                    Some(jid) => {
                        self.state = ConnectionState::Connected;
                        match &mut self.credentials {
                            Some(c) => {
                                c.jid = Jid::from_full_jid(jid.text());
                            },
                            None => {},
                        }
                    },
                    None => {},
                },
                None => {},
            },
            None => {},
        }
    }

    /// A generic IQ answer.
    fn handle_generic_answer(&mut self, generic: &GenericIq, returnable: Event)
        ensures
            final(self)@ == spec_generic_answer(old(self)@, generic@, returnable@),
    {
        if generic.get_type() == IqType::Result {
            match generic.get_element() {
                Some(body) => {
                    if body.find(Some(ns::BIND), "bind").is_some() {
                        match Bind::from_generic(generic) {
                            Ok(bind) => self.handle_bind_response(&bind.generic),
                            Err(_) => {},
                        }
                    } else {
                        self.handle_iq(generic.get_id(), returnable);
                    }
                },
                None => {},
            }
        }
    }

    /// The answer to the stream features.
    fn handle_features(&mut self, source: &str)
        ensures
            final(self)@ == spec_handle_features(old(self)@, source@),
    {
        if contains_str(source, "starttls") {
            self.state = ConnectionState::Connecting(ConnectingState::ReceivedInitialStreamFeatures);
            let event = StartTls::new(&self.config).to_event();
            self.add_frame(event);
        } else if contains_str(source, "PLAIN") {
            self.state = ConnectionState::Connecting(ConnectingState::ReceivedAuthenticatedFeatures);
            let credentials = match &self.credentials {
                Some(c) => c.copy(),
                None => Credentials::default(),
            };
            let auth = Auth::new(&self.config, credentials);
            self.add_frame(auth.to_event());
        } else if contains_str(source, "session") {
            let mut bind = Bind::new();
            bind.set_type(IqType::SetRequest);
            bind.set_id("bind_1");
            self.add_frame(bind.to_event());
        } else {
            self.state = ConnectionState::Connecting(ConnectingState::ReceivedInitialStream);
        }
    }

    /// Handles a received event: moves the negotiation on, queues the answers it calls for,
    /// and keeps for the reader what arrives once the connection is established.
    pub fn handle_frame(&mut self, f: Event)
        ensures
            final(self)@ == spec_handle_frame(old(self)@, f@),
            ids_distinct(old(self)@.iq_pending),
            ids_distinct(final(self)@.iq_pending),
    {
        self.iq_queue.distinct();
        let returnable_event = f.copy();
        match f {
            Event::NonStanza(non_stanza, source) => match *non_stanza {
                NonStanzaEvent::CloseStreamEvent => {
                    self.state = ConnectionState::Closed;
                    self.add_frame(returnable_event);
                },
                NonStanzaEvent::ProceedTlsEvent(_) => {
                    self.state = ConnectionState::Connecting(ConnectingState::ReceivedProceedCommand);
                    self.start_tls();
                },
                NonStanzaEvent::SuccessTlsEvent(_) => {
                    let event = OpenStream::new(&self.config).to_event();
                    self.add_frame(event);
                },
                NonStanzaEvent::StreamFeaturesEvent(_) => {
                    self.handle_features(source.as_str());
                },
                _ => {
                    self.keep_if_connected(returnable_event);
                },
            },
            Event::Stanza(stanza, _) => match *stanza {
                StanzaEvent::IqEvent(iq) => match *iq {
                    IqEvent::GenericEvent(event) => {
                        self.handle_generic_answer(&event, returnable_event);
                    },
                    _ => {
                        self.keep_if_connected(returnable_event);
                    },
                },
                StanzaEvent::IqResponseEvent(iq) => match *iq {
                    IqEvent::GenericEvent(event) => {
                        self.handle_generic_answer(&event, returnable_event);
                    },
                    IqEvent::BindEvent(event) => {
                        self.handle_bind_response(&event.generic);
                    },
                    _ => {
                        self.keep_if_connected(returnable_event);
                    },
                },
                _ => {
                    self.keep_if_connected(returnable_event);
                },
            },
            Event::Unknown(_, _) => {
                self.keep_if_connected(returnable_event);
            },
        }
        self.iq_queue.distinct();
    }
}

/// Frames leave in the order they were queued: after queuing a frame, the oldest frame
/// taken out is the oldest one queued before, or the new one when none was; and what stays
/// is the rest, with the new frame at the end.
pub proof fn lemma_frames_first_in_first_out(c: ConnectionView, f: EventView)
    ensures
        spec_pop_frame(spec_push_frame(c, f)) == (if c.frames.len() == 0 {
            (Some(f), c)
        } else {
            (Some(c.frames[0]), spec_push_frame(spec_pop_frame(c).1, f))
        }),
{
    if c.frames.len() == 0 {
        assert(c.frames.push(f).drop_first() =~= c.frames);
    } else {
        assert(c.frames.push(f).drop_first() =~= c.frames.drop_first().push(f));
    }
}

/// Events reach the reader in the order they were kept.
pub proof fn lemma_inputs_first_in_first_out(c: ConnectionView, e: EventView)
    ensures
        spec_pop_input(spec_push_input(c, e)) == (if c.inputs.len() == 0 {
            (Some(e), c)
        } else {
            (Some(c.inputs[0]), spec_push_input(spec_pop_input(c).1, e))
        }),
{
    if c.inputs.len() == 0 {
        assert(c.inputs.push(e).drop_first() =~= c.inputs);
    } else {
        assert(c.inputs.push(e).drop_first() =~= c.inputs.drop_first().push(e));
    }
}

/// `c2` holds what `c1` holds, with at most one more frame and one more event for the
/// reader at the end of each queue, and the same domain.
pub open spec fn extends_queues(c1: ConnectionView, c2: ConnectionView) -> bool {
    &&& c2.domain == c1.domain
    &&& c1.frames.len() <= c2.frames.len() <= c1.frames.len() + 1
    &&& c2.frames.subrange(0, c1.frames.len() as int) == c1.frames
    &&& c1.inputs.len() <= c2.inputs.len() <= c1.inputs.len() + 1
    &&& c2.inputs.subrange(0, c1.inputs.len() as int) == c1.inputs
}

proof fn lemma_push_extends(c: ConnectionView, f: EventView, e: EventView)
    ensures
        extends_queues(c, c),
        extends_queues(c, spec_push_frame(c, f)),
        extends_queues(c, spec_push_input(c, e)),
{
    assert(c.frames.subrange(0, c.frames.len() as int) =~= c.frames);
    assert(c.inputs.subrange(0, c.inputs.len() as int) =~= c.inputs);
    assert(c.frames.push(f).subrange(0, c.frames.len() as int) =~= c.frames);
    assert(c.inputs.push(e).subrange(0, c.inputs.len() as int) =~= c.inputs);
}

/// Handling a received event never drops a frame queued to send nor an event kept for the
/// reader: each queue grows at its end, by one at most, and the domain stays.
pub proof fn lemma_handle_frame_keeps_queues(c: ConnectionView, e: EventView)
    ensures
        extends_queues(c, spec_handle_frame(c, e)),
{
    lemma_push_extends(c, e, e);
    lemma_push_extends(c, spec_open_stream_event(c.domain), e);
    lemma_push_extends(c, EventView::NonStanza(NonStanzaEventView::StartTls, Seq::empty()), e);
    lemma_push_extends(c, spec_auth_request(c.credentials), e);
    lemma_push_extends(c, spec_bind_request(), e);
    let d = spec_handle_frame(c, e);
    assert(d.frames.subrange(0, c.frames.len() as int) =~= c.frames);
    assert(d.inputs.subrange(0, c.inputs.len() as int) =~= c.inputs);
}

/// When the server closes the stream, the connection is closed and the close is sent back.
pub proof fn lemma_close_stream_closes(c: ConnectionView, source: Seq<char>)
    ensures
        ({
            let e = EventView::NonStanza(NonStanzaEventView::CloseStream, source);
            let d = spec_handle_frame(c, e);
            &&& d.state == ConnectionState::Closed
            &&& d.frames == c.frames.push(e)
            &&& d.inputs == c.inputs
        }),
{
}

/// Before the connection is established, a message or a presence is not kept for the
/// reader; once it is, it is kept, last.
pub proof fn lemma_stanza_kept_once_connected(c: ConnectionView, s: StanzaEventView, source: Seq<char>)
    requires
        s is Message || s is Presence,
    ensures
        ({
            let e = EventView::Stanza(s, source);
            let d = spec_handle_frame(c, e);
            &&& c.state != ConnectionState::Connected ==> d == c
            &&& c.state == ConnectionState::Connected ==> d == spec_push_input(c, e)
        }),
{
}

/// An answer to an IQ whose identifier is waited for is handed over, and the identifier is
/// no longer waited for; an answer nobody waits for is kept for the reader.
pub proof fn lemma_iq_answer_handed_over(c: ConnectionView, id: Seq<char>, e: EventView)
    requires
        ids_distinct(c.iq_pending),
    ensures
        ({
            let d = spec_handle_iq(c, id, e);
            &&& c.iq_pending.contains(id) ==> d.iq_replies == c.iq_replies.push((id, e))
                && !d.iq_pending.contains(id) && d.iq_pending.len() == c.iq_pending.len() - 1
                && d.inputs == c.inputs
            &&& !c.iq_pending.contains(id) ==> d == spec_push_input(c, e)
        }),
{
    if c.iq_pending.contains(id) {
        let w = choose|w: int| 0 <= w < c.iq_pending.len() && c.iq_pending[w] == id;
        assert(is_first_pending(c.iq_pending, id, w));
        lemma_first_pending_unique(c.iq_pending, id, w);
        let d = spec_handle_iq(c, id, e);
        assert(!d.iq_pending.contains(id)) by {
            if d.iq_pending.contains(id) {
                let k = choose|k: int| 0 <= k < d.iq_pending.len() && d.iq_pending[k] == id;
                if k < w {
                    assert(d.iq_pending[k] == c.iq_pending[k]);
                } else {
                    assert(d.iq_pending[k] == c.iq_pending[k + 1]);
                }
            }
        }
    } else {
        if exists|k: int| is_first_pending(c.iq_pending, id, k) {
            let k = choose|k: int| is_first_pending(c.iq_pending, id, k);
            assert(c.iq_pending[k] == id);
        }
    }
}

/// Waiting for an IQ keeps the identifiers waited for distinct.
pub proof fn lemma_wait_for_iq_distinct(c: ConnectionView, id: Seq<char>)
    requires
        ids_distinct(c.iq_pending),
    ensures
        ({
            let d = spec_wait_for_iq(c, id);
            &&& d.iq_pending.contains(id)
            &&& ids_distinct(d.iq_pending)
        }),
{
    let d = spec_wait_for_iq(c, id);
    if !c.iq_pending.contains(id) {
        assert(d.iq_pending[c.iq_pending.len() as int] == id);
    }
}

/// An IQ request received once the connection is established (a server ping, say) is kept
/// for the reader: it goes to the end of the reader's queue and nothing else changes. Before
/// that, it is passed over.
pub proof fn lemma_iq_request_kept_once_connected(c: ConnectionView, iq: IqEventView, source: Seq<char>)
    ensures
        ({
            let e = EventView::Stanza(StanzaEventView::IqRequest(iq), source);
            let d = spec_handle_frame(c, e);
            &&& c.state == ConnectionState::Connected ==> d.inputs == c.inputs.push(e) && d.inputs.last() == e
                && d.frames == c.frames && d.state == c.state && d.iq_pending == c.iq_pending
                && d.iq_replies == c.iq_replies && d.credentials == c.credentials && d.domain == c.domain
            &&& c.state != ConnectionState::Connected ==> d == c
        }),
{
}

} // verus!
