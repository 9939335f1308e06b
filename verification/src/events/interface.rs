//! The event hierarchy: stanzas and stream events.
use vstd::prelude::*;
use crate::element::{XmlElement, ElementView};
use crate::jid::{JidView, opt_view};
use crate::events::kinds::EventError;
use crate::events::generic::{GenericIq, GenericIqView, GenericMessage, GenericMessageView, opt_jid_view, spec_iq_element, spec_message_element};
use crate::events::bind::{Bind, spec_bind_element};
use crate::events::ping::{Ping, spec_ping_element};
use crate::events::presence::{Presence, PresenceView, spec_presence_element};
use crate::events::open_stream::{OpenStream, OpenStreamView};
use crate::events::simple::{ProceedTls, SuccessTls, StartTls, Unknown};
use crate::events::stream_features::{StreamFeatures, StreamFeaturesView};
use crate::events::auth::Auth;

verus! {

/// Reads a value out of a generic stanza.
pub trait FromGeneric {
    type Generic;

    type Out;

    fn from_generic(event: &Self::Generic) -> Result<Self::Out, EventError>;
}

/// Define a sub part of an Event, an IqEvent is the representation of a Stanza which is an IQ.
pub enum IqEvent {
    BindEvent(Bind),
    GenericEvent(GenericIq),
    PingEvent(Ping),
}

/// Define a sub part of an Event, a StanzaEvent is the representation of a Stanza which can be a
/// Presence, an IQ or a Message.
pub enum StanzaEvent {
    PresenceEvent(Presence),
    IqEvent(Box<IqEvent>),
    IqRequestEvent(Box<IqEvent>),
    IqResponseEvent(Box<IqEvent>),
    MessageEvent(Box<GenericMessage>),
}

/// Define a sub part of an Event, a NonStanzaEvent is the representation of an XML Stream event.
pub enum NonStanzaEvent {
    OpenStreamEvent(Box<OpenStream>),
    CloseStreamEvent,
    ProceedTlsEvent(Box<ProceedTls>),
    SuccessTlsEvent(Box<SuccessTls>),
    StartTlsEvent(Box<StartTls>),
    StreamFeaturesEvent(Box<StreamFeatures>),
    AuthEvent(Box<Auth>),
}

/// Define an Event between a client and a server (or a server and another server); each
/// carries the text it was read from, empty for an event built here.
pub enum Event {
    /// Represent an event which is an XML Stream
    NonStanza(Box<NonStanzaEvent>, String),
    /// Represent an event which is an XML Stanza
    Stanza(Box<StanzaEvent>, String),
    /// Represent a text that is not understood
    Unknown(Unknown, String),
}

pub enum IqEventView {
    Bind(GenericIqView, Option<JidView>),
    Generic(GenericIqView),
    Ping(GenericIqView),
}

pub enum StanzaEventView {
    Presence(PresenceView),
    Iq(IqEventView),
    IqRequest(IqEventView),
    IqResponse(IqEventView),
    Message(GenericMessageView),
}

pub enum NonStanzaEventView {
    OpenStream(OpenStreamView),
    CloseStream,
    ProceedTls,
    SuccessTls,
    StartTls,
    StreamFeatures(StreamFeaturesView),
    Auth(JidView, Seq<char>),
}

pub enum EventView {
    NonStanza(NonStanzaEventView, Seq<char>),
    Stanza(StanzaEventView, Seq<char>),
    Unknown(Seq<char>),
}

impl View for IqEvent {
    type V = IqEventView;

    open spec fn view(&self) -> IqEventView {
        match self {
            IqEvent::BindEvent(b) => IqEventView::Bind(b.generic@, opt_jid_view(b.jid)),
            IqEvent::GenericEvent(g) => IqEventView::Generic(g@),
            IqEvent::PingEvent(p) => IqEventView::Ping(p.generic@),
        }
    }
}

impl View for StanzaEvent {
    type V = StanzaEventView;

    open spec fn view(&self) -> StanzaEventView {
        match self {
            StanzaEvent::PresenceEvent(p) => StanzaEventView::Presence(p@),
            StanzaEvent::IqEvent(i) => StanzaEventView::Iq((**i)@),
            StanzaEvent::IqRequestEvent(i) => StanzaEventView::IqRequest((**i)@),
            StanzaEvent::IqResponseEvent(i) => StanzaEventView::IqResponse((**i)@),
            StanzaEvent::MessageEvent(m) => StanzaEventView::Message((**m)@),
        }
    }
}

impl View for NonStanzaEvent {
    type V = NonStanzaEventView;

    open spec fn view(&self) -> NonStanzaEventView {
        match self {
            NonStanzaEvent::OpenStreamEvent(o) => NonStanzaEventView::OpenStream((**o)@),
            NonStanzaEvent::CloseStreamEvent => NonStanzaEventView::CloseStream,
            NonStanzaEvent::ProceedTlsEvent(_) => NonStanzaEventView::ProceedTls,
            NonStanzaEvent::SuccessTlsEvent(_) => NonStanzaEventView::SuccessTls,
            NonStanzaEvent::StartTlsEvent(_) => NonStanzaEventView::StartTls,
            NonStanzaEvent::StreamFeaturesEvent(f) => NonStanzaEventView::StreamFeatures((**f)@),
            NonStanzaEvent::AuthEvent(a) => NonStanzaEventView::Auth(a.jid(), a.password()),
        }
    }
}

impl View for Event {
    type V = EventView;

    open spec fn view(&self) -> EventView {
        match self {
            Event::NonStanza(n, s) => EventView::NonStanza((**n)@, s@),
            Event::Stanza(st, s) => EventView::Stanza((**st)@, s@),
            Event::Unknown(_, s) => EventView::Unknown(s@),
        }
    }
}

/// The event is a message.
pub open spec fn spec_is_message(e: EventView) -> bool {
    e matches EventView::Stanza(StanzaEventView::Message(_), _)
}

/// The event is a presence.
pub open spec fn spec_is_presence(e: EventView) -> bool {
    e matches EventView::Stanza(StanzaEventView::Presence(_), _)
}

/// The event is an IQ, of any of the three kinds.
pub open spec fn spec_is_iq(e: EventView) -> bool {
    ||| e matches EventView::Stanza(StanzaEventView::Iq(_), _)
    ||| e matches EventView::Stanza(StanzaEventView::IqRequest(_), _)
    ||| e matches EventView::Stanza(StanzaEventView::IqResponse(_), _)
}

/// The event belongs to the stream, not to a stanza.
pub open spec fn spec_is_non_stanza(e: EventView) -> bool {
    e is NonStanza
}

/// The element of an IQ event.
pub open spec fn spec_iq_event_element(i: IqEventView) -> ElementView {
    match i {
        IqEventView::Ping(g) => spec_ping_element(g),
        IqEventView::Bind(g, _) => spec_bind_element(g),
        IqEventView::Generic(g) => spec_iq_element(g),
    }
}

/// The element of a stanza event.
pub open spec fn spec_stanza_element(s: StanzaEventView) -> ElementView {
    match s {
        StanzaEventView::Presence(p) => spec_presence_element(p),
        StanzaEventView::Message(m) => spec_message_element(m),
        StanzaEventView::Iq(i) => spec_iq_event_element(i),
        StanzaEventView::IqRequest(i) => spec_iq_event_element(i),
        StanzaEventView::IqResponse(i) => spec_iq_event_element(i),
    }
}

impl IqEvent {
    pub fn copy(&self) -> (r: IqEvent)
        ensures
            r@ == self@,
    {
        match self {
            IqEvent::BindEvent(b) => IqEvent::BindEvent(b.copy()),
            IqEvent::GenericEvent(g) => IqEvent::GenericEvent(g.copy()),
            IqEvent::PingEvent(p) => IqEvent::PingEvent(p.copy()),
        }
    }

    pub fn to_element(&self) -> (r: XmlElement)
        ensures
            r@ == spec_iq_event_element(self@),
    {
        match self {
            IqEvent::PingEvent(e) => e.to_element(),
            IqEvent::BindEvent(e) => e.to_element(),
            IqEvent::GenericEvent(e) => e.to_element(),
        }
    }
}

impl StanzaEvent {
    pub fn copy(&self) -> (r: StanzaEvent)
        ensures
            r@ == self@,
    {
        match self {
            StanzaEvent::PresenceEvent(p) => StanzaEvent::PresenceEvent(p.copy()),
            StanzaEvent::IqEvent(i) => StanzaEvent::IqEvent(Box::new(i.copy())),
            StanzaEvent::IqRequestEvent(i) => StanzaEvent::IqRequestEvent(Box::new(i.copy())),
            StanzaEvent::IqResponseEvent(i) => StanzaEvent::IqResponseEvent(Box::new(i.copy())),
            StanzaEvent::MessageEvent(m) => StanzaEvent::MessageEvent(Box::new(m.copy())),
        }
    }

    /// The element of a stanza event.
    pub fn to_element(&self) -> (r: XmlElement)
        ensures
            r@ == spec_stanza_element(self@),
    {
        match self {
            StanzaEvent::PresenceEvent(e) => e.to_element(),
            StanzaEvent::MessageEvent(e) => e.to_element(),
            StanzaEvent::IqResponseEvent(i) => i.to_element(),
            StanzaEvent::IqEvent(i) => i.to_element(),
            StanzaEvent::IqRequestEvent(i) => i.to_element(),
        }
    }
}

impl NonStanzaEvent {
    pub fn copy(&self) -> (r: NonStanzaEvent)
        ensures
            r@ == self@,
    {
        match self {
            NonStanzaEvent::OpenStreamEvent(o) => NonStanzaEvent::OpenStreamEvent(Box::new(o.copy())),
            NonStanzaEvent::CloseStreamEvent => NonStanzaEvent::CloseStreamEvent,
            NonStanzaEvent::ProceedTlsEvent(_) => NonStanzaEvent::ProceedTlsEvent(Box::new(ProceedTls {})),
            NonStanzaEvent::SuccessTlsEvent(_) => NonStanzaEvent::SuccessTlsEvent(Box::new(SuccessTls {})),
            NonStanzaEvent::StartTlsEvent(s) => NonStanzaEvent::StartTlsEvent(Box::new(s.copy())),
            NonStanzaEvent::StreamFeaturesEvent(f) => NonStanzaEvent::StreamFeaturesEvent(Box::new(f.copy())),
            NonStanzaEvent::AuthEvent(a) => NonStanzaEvent::AuthEvent(Box::new(a.copy())),
        }
    }
}

impl Event {
    pub fn copy(&self) -> (r: Event)
        ensures
            r@ == self@,
    {
        match self {
            Event::NonStanza(n, s) => Event::NonStanza(Box::new(n.copy()), s.clone()),
            Event::Stanza(st, s) => Event::Stanza(Box::new(st.copy()), s.clone()),
            Event::Unknown(_, s) => Event::Unknown(Unknown {}, s.clone()),
        }
    }

    /// Test if the current Event is a Message event type
    pub fn is_message(&self) -> (r: bool)
        ensures
            r == spec_is_message(self@),
    {
        match self {
            Event::Stanza(stanza, _) => match **stanza {
                StanzaEvent::MessageEvent(_) => true,
                _ => false,
            },
            _ => false,
        }
    }

    /// Test if the current Event is a Presence event type
    pub fn is_presence(&self) -> (r: bool)
        ensures
            r == spec_is_presence(self@),
    {
        match self {
            Event::Stanza(stanza, _) => match **stanza {
                StanzaEvent::PresenceEvent(_) => true,
                _ => false,
            },
            _ => false,
        }
    }

    /// Test if the current Event is an IQ event type
    pub fn is_iq(&self) -> (r: bool)
        ensures
            r == spec_is_iq(self@),
    {
        match self {
            Event::Stanza(stanza, _) => match **stanza {
                StanzaEvent::IqEvent(_) | StanzaEvent::IqRequestEvent(_) | StanzaEvent::IqResponseEvent(_) => true,
                _ => false,
            },
            _ => false,
        }
    }

    /// Test if the current Event is a NonStanza event type
    pub fn is_non_stanza(&self) -> (r: bool)
        ensures
            r == spec_is_non_stanza(self@),
    {
        match self {
            Event::NonStanza(..) => true,
            _ => false,
        }
    }
}

/// ToEvent is used to transform an object to an XMPP Event
pub trait ToEvent {
    /// The event the object gives.
    spec fn spec_to_event(&self) -> EventView;

    fn to_event(&self) -> (r: Event)
        ensures
            r@ == self.spec_to_event();
}

impl ToEvent for OpenStream {
    open spec fn spec_to_event(&self) -> EventView {
        EventView::NonStanza(NonStanzaEventView::OpenStream(self@), Seq::empty())
    }

    fn to_event(&self) -> (r: Event) {
        OpenStream::to_event(self)
    }
}

impl ToEvent for Ping {
    open spec fn spec_to_event(&self) -> EventView {
        if self.generic@.iq_type == crate::events::kinds::IqType::Result {
            EventView::Stanza(StanzaEventView::IqResponse(IqEventView::Ping(self.generic@)), Seq::empty())
        } else {
            EventView::Stanza(StanzaEventView::Iq(IqEventView::Ping(self.generic@)), Seq::empty())
        }
    }

    fn to_event(&self) -> (r: Event) {
        Ping::to_event(self)
    }
}

impl ToEvent for Bind {
    open spec fn spec_to_event(&self) -> EventView {
        if self.generic@.iq_type == crate::events::kinds::IqType::Result {
            EventView::Stanza(StanzaEventView::IqResponse(IqEventView::Bind(self.generic@, opt_jid_view(self.jid))), Seq::empty())
        } else {
            EventView::Stanza(StanzaEventView::Iq(IqEventView::Bind(self.generic@, opt_jid_view(self.jid))), Seq::empty())
        }
    }

    fn to_event(&self) -> (r: Event) {
        Bind::to_event(self)
    }
}

impl ToEvent for Presence {
    open spec fn spec_to_event(&self) -> EventView {
        EventView::Stanza(StanzaEventView::Presence(self@), Seq::empty())
    }

    fn to_event(&self) -> (r: Event) {
        Presence::to_event(self)
    }
}

impl ToEvent for GenericIq {
    open spec fn spec_to_event(&self) -> EventView {
        EventView::Stanza(StanzaEventView::Iq(IqEventView::Generic(self@)), Seq::empty())
    }

    fn to_event(&self) -> (r: Event) {
        GenericIq::to_event(self)
    }
}

impl ToEvent for GenericMessage {
    open spec fn spec_to_event(&self) -> EventView {
        EventView::Stanza(StanzaEventView::Message(self@), Seq::empty())
    }

    fn to_event(&self) -> (r: Event) {
        GenericMessage::to_event(self)
    }
}

impl ToEvent for crate::events::message::Message {
    open spec fn spec_to_event(&self) -> EventView {
        EventView::Stanza(
            StanzaEventView::Message(crate::events::generic::spec_message_from_element(
                crate::events::message::spec_body_message_element(self@),
            )),
            Seq::empty(),
        )
    }

    fn to_event(&self) -> (r: Event) {
        crate::events::message::Message::to_event(self)
    }
}

impl ToEvent for crate::events::simple::CloseStream {
    open spec fn spec_to_event(&self) -> EventView {
        EventView::NonStanza(NonStanzaEventView::CloseStream, Seq::empty())
    }

    fn to_event(&self) -> (r: Event) {
        crate::events::simple::CloseStream::to_event(self)
    }
}

impl ToEvent for ProceedTls {
    open spec fn spec_to_event(&self) -> EventView {
        EventView::NonStanza(NonStanzaEventView::ProceedTls, Seq::empty())
    }

    fn to_event(&self) -> (r: Event) {
        ProceedTls::to_event(self)
    }
}

impl ToEvent for SuccessTls {
    open spec fn spec_to_event(&self) -> EventView {
        EventView::NonStanza(NonStanzaEventView::SuccessTls, Seq::empty())
    }

    fn to_event(&self) -> (r: Event) {
        SuccessTls::to_event(self)
    }
}

impl ToEvent for StartTls {
    open spec fn spec_to_event(&self) -> EventView {
        EventView::NonStanza(NonStanzaEventView::StartTls, Seq::empty())
    }

    fn to_event(&self) -> (r: Event) {
        StartTls::to_event(self)
    }
}

impl ToEvent for StreamFeatures {
    open spec fn spec_to_event(&self) -> EventView {
        EventView::NonStanza(NonStanzaEventView::StreamFeatures(self@), Seq::empty())
    }

    fn to_event(&self) -> (r: Event) {
        StreamFeatures::to_event(self)
    }
}

impl ToEvent for Auth {
    open spec fn spec_to_event(&self) -> EventView {
        EventView::NonStanza(NonStanzaEventView::Auth(self.jid(), self.password()), Seq::empty())
    }

    fn to_event(&self) -> (r: Event) {
        Auth::to_event(self)
    }
}

} // verus!
