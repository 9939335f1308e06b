//! Recognising an incoming piece of text as an event, with regular expressions.
use vstd::prelude::*;
use crate::element::{attr_value, find_child, plain_name, qname};
use crate::jid::opt_view;
use crate::ns;
use crate::text::has_substring;
use crate::xml::{xml_parse, xml_root_declares};
use crate::events::kinds::IqType;
use crate::events::generic::{GenericIq, GenericMessage, spec_iq_from_text, spec_message_read_parsed};
use crate::events::interface::{Event, EventView, IqEvent, IqEventView, NonStanzaEvent, NonStanzaEventView,
    StanzaEvent, StanzaEventView};
use crate::events::open_stream::{OpenStream, OpenStreamView, spec_closed_header};
use crate::events::ping::Ping;
use crate::events::presence::{Presence, spec_presence_from_parsed};
use crate::events::simple::{CloseStream, ProceedTls, SuccessTls, Unknown};
use crate::events::stream_features::{StreamFeatures, StreamFeaturesView, FeaturesView};

verus! {

pub const XML_R: &'static str = r"(<\?xm[^<]*>)";
pub const STREAM_STREAM: &'static str = r"(<stream:stream[^<]*)";
pub const STREAM_CLOSE: &'static str = r"(</stream:stream>)";
pub const STREAM_FEATURES: &'static str = r"(?i)(<stream:features>(.*?)(?:</stream:features>))";
pub const PROCEED: &'static str = r"(<proceed[^<]*)";
pub const SUCCESS: &'static str = r"(<success[^<]*)";
pub const IQ: &'static str = r"(?i)((<iq[^<]*/>|<iq(.*?)(?:</iq>)))";
pub const PRESENCE: &'static str = r"(?i)((<presence[^<]*/>|<presence(.*?)(?:</presence>)))";
pub const MESSAGE: &'static str = r"(?i)(<message(.*?)(?:</message>))";

/// The number of patterns, tried in their order.
pub const PATTERN_COUNT: usize = 9;

/// The patterns: the XML declaration, the stream header, the end of the stream, the stream
/// features, the TLS proceed answer, the SASL success, an IQ, a presence, a message.
pub open spec fn spec_pattern(i: int) -> Seq<char> {
    if i == 0 {
        XML_R@
    } else if i == 1 {
        STREAM_STREAM@
    } else if i == 2 {
        STREAM_CLOSE@
    } else if i == 3 {
        STREAM_FEATURES@
    } else if i == 4 {
        PROCEED@
    } else if i == 5 {
        SUCCESS@
    } else if i == 6 {
        IQ@
    } else if i == 7 {
        PRESENCE@
    } else {
        MESSAGE@
    }
}

/// The pattern at a position.
pub fn pattern_at(i: usize) -> (r: &'static str)
    requires
        i < PATTERN_COUNT,
    ensures
        r@ == spec_pattern(i as int),
{
    if i == 0 {
        XML_R
    } else if i == 1 {
        STREAM_STREAM
    } else if i == 2 {
        STREAM_CLOSE
    } else if i == 3 {
        STREAM_FEATURES
    } else if i == 4 {
        PROCEED
    } else if i == 5 {
        SUCCESS
    } else if i == 6 {
        IQ
    } else if i == 7 {
        PRESENCE
    } else {
        MESSAGE
    }
}

/// What the `regex` crate finds of a pattern in a text: the text of the leftmost-first match
/// (group 0 of `Regex::captures`), or nothing when the pattern does not match.
pub uninterp spec fn regex_capture(pattern: Seq<char>, text: Seq<char>) -> Option<Seq<char>>;

/// Compiles `pattern` with `regex::Regex::new` and takes group 0 of `Regex::captures` on
/// `text`. The contract claims that the result is the one named `regex_capture`, and, as the
/// crate's documentation says of a match, that it is a contiguous part of the text; nothing
/// comes back when the pattern does not compile.
#[verifier::external_body]
fn first_match(pattern: &str, text: &str) -> (r: Option<String>)
    ensures
        opt_view(r) == regex_capture(pattern@, text@),
        r matches Some(c) ==> has_substring(text@, c@),
{
    match regex::Regex::new(pattern) {
        Ok(re) => re.captures(text).map(|c| c[0].to_string()),
        Err(_) => None,
    }
}

/// The first pattern, from position `i` on, that matches the text, with the text it matches.
pub open spec fn spec_first_match(text: Seq<char>, i: int) -> Option<(int, Seq<char>)>
    decreases PATTERN_COUNT - i,
{
    if i < 0 || i >= PATTERN_COUNT {
        None
    } else {
        match regex_capture(spec_pattern(i), text) {
            Some(c) => Some((i, c)),
            None => spec_first_match(text, i + 1),
        }
    }
}

/// The event that the text matched by pattern `k` makes.
pub open spec fn spec_classify(k: int, c: Seq<char>) -> Option<EventView> {
    if k == 0 {
        Some(EventView::Unknown(c))
    } else if k == 1 {
        match xml_parse(spec_closed_header(c)) {
            Some(e) => Some(EventView::NonStanza(
                NonStanzaEventView::OpenStream(OpenStreamView {
                    to: attr_value(e.attrs, plain_name("to"@)),
                    xmlns: if xml_root_declares(spec_closed_header(c), ns::CLIENT@) {
                        ns::CLIENT@
                    } else {
                        ns::SERVER@
                    },
                }),
                Seq::empty(),
            )),
            None => None,
        }
    } else if k == 2 {
        Some(EventView::NonStanza(NonStanzaEventView::CloseStream, Seq::empty()))
    } else if k == 3 {
        Some(EventView::NonStanza(
            NonStanzaEventView::StreamFeatures(StreamFeaturesView { features: FeaturesView::Unknown, session: None }),
            c,
        ))
    } else if k == 4 {
        Some(EventView::NonStanza(NonStanzaEventView::ProceedTls, c))
    } else if k == 5 {
        Some(EventView::NonStanza(NonStanzaEventView::SuccessTls, c))
    } else if k == 6 {
        match spec_iq_from_text(c) {
            Ok(g) => Some(match g.iq_type {
                IqType::Get => if g.element matches Some(b) && find_child(b, qname(Some(ns::PING@), "ping"@)) is Some {
                    EventView::Stanza(StanzaEventView::IqRequest(IqEventView::Ping(g)), c)
                } else {
                    EventView::Stanza(StanzaEventView::IqRequest(IqEventView::Generic(g)), c)
                },
                IqType::Result => EventView::Stanza(StanzaEventView::IqResponse(IqEventView::Generic(g)), c),
                _ => EventView::Stanza(StanzaEventView::Iq(IqEventView::Generic(g)), Seq::empty()),
            }),
            Err(_) => None,
        }
    } else if k == 7 {
        match xml_parse(c) {
            Some(e) => match spec_presence_from_parsed(e) {
                Ok(p) => Some(EventView::Stanza(StanzaEventView::Presence(p), c)),
                Err(_) => None,
            },
            None => None,
        }
    } else {
        match xml_parse(c) {
            Some(e) => match spec_message_read_parsed(e) {
                Ok(m) => Some(EventView::Stanza(StanzaEventView::Message(m), Seq::empty())),
                Err(_) => None,
            },
            None => None,
        }
    }
}

/// What `Parser::parse` gives for a text.
pub open spec fn spec_parse(text: Seq<char>) -> Option<(EventView, Seq<char>)> {
    match spec_first_match(text, 0) {
        Some((k, c)) => match spec_classify(k, c) {
            Some(e) => Some((e, c)),
            None => None,
        },
        None => None,
    }
}

pub open spec fn opt_event_view(r: Option<Event>) -> Option<EventView> {
    match r {
        Some(e) => Some(e@),
        None => None,
    }
}

/// The event that the text matched by pattern `k` makes; nothing when that text does not read
/// as the event the pattern is for.
pub fn classify(k: usize, c: &str) -> (r: Option<Event>)
    requires
        k < PATTERN_COUNT,
    ensures
        opt_event_view(r) == spec_classify(k as int, c@),
{
    if k == 0 {
        match Unknown::from_str(c) {
            Ok(u) => Some(Event::Unknown(u, c.to_owned())),
            Err(_) => None,
        }
    } else if k == 1 {
        match OpenStream::from_str(c) {
            Ok(o) => Some(o.to_event()),
            Err(_) => None,
        }
    } else if k == 2 {
        Some(CloseStream::new().to_event())
    } else if k == 3 {
        match StreamFeatures::from_str(c) {
            Ok(f) => Some(Event::NonStanza(Box::new(NonStanzaEvent::StreamFeaturesEvent(Box::new(f))), c.to_owned())),
            Err(_) => None,
        }
    } else if k == 4 {
        match ProceedTls::from_str(c) {
            Ok(p) => Some(Event::NonStanza(Box::new(NonStanzaEvent::ProceedTlsEvent(Box::new(p))), c.to_owned())),
            Err(_) => None,
        }
    } else if k == 5 {
        match SuccessTls::from_str(c) {
            Ok(s) => Some(Event::NonStanza(Box::new(NonStanzaEvent::SuccessTlsEvent(Box::new(s))), c.to_owned())),
            Err(_) => None,
        }
    } else if k == 6 {
        let g = match GenericIq::from_str(c) {
            Ok(g) => g,
            Err(_) => return None,
        };
        match g.get_type() {
            IqType::Get => {
                let is_ping = match g.get_element() {
                    Some(body) => body.find(Some(ns::PING), "ping").is_some(),
                    None => false,
                };
                if is_ping {
                    match Ping::from_str(c) {
                        Ok(p) => Some(Event::Stanza(
                            Box::new(StanzaEvent::IqRequestEvent(Box::new(IqEvent::PingEvent(p)))),
                            c.to_owned(),
                        )),
                        Err(_) => None,
                    }
                } else {
                    Some(Event::Stanza(Box::new(StanzaEvent::IqRequestEvent(Box::new(IqEvent::GenericEvent(g)))), c.to_owned()))
                }
            },
            IqType::Result => Some(Event::Stanza(
                Box::new(StanzaEvent::IqResponseEvent(Box::new(IqEvent::GenericEvent(g)))),
                c.to_owned(),
            )),
            _ => Some(g.to_event()),
        }
    } else if k == 7 {
        match Presence::from_str(c) {
            Ok(p) => Some(Event::Stanza(Box::new(StanzaEvent::PresenceEvent(p)), c.to_owned())),
            Err(_) => None,
        }
    } else {
        match GenericMessage::from_str(c) {
            Ok(m) => Some(m.to_event()),
            Err(_) => None,
        }
    }
}

/// Used to parse incoming stanza into Event
pub struct Parser;

impl Parser {
    /// Parse an incoming `stanza` and return matching event: the patterns are tried in their
    /// order; the first that matches gives the matched text, which is read as the event the
    /// pattern is for. Nothing when no pattern matches, or when the matched text does not
    /// read as that event.
    pub fn parse(f: &str) -> (r: Option<(Event, String)>)
        ensures
            match r {
                Some((e, c)) => spec_parse(f@) == Some((e@, c@)),
                None => spec_parse(f@) is None,
            },
            r matches Some((_, c)) ==> has_substring(f@, c@),
    {
        let mut i: usize = 0;
        while i < PATTERN_COUNT
            invariant
                0 <= i <= PATTERN_COUNT,
                spec_first_match(f@, 0) == spec_first_match(f@, i as int),
            decreases PATTERN_COUNT - i,
        {
            match first_match(pattern_at(i), f) {
                Some(c) => {
                    return match classify(i, c.as_str()) {
                        Some(e) => Some((e, c)),
                        None => None,
                    };
                },
                None => {},
            }
            i = i + 1;
        }
        None
    }
}

/// A text whose first matching pattern is the IQ one (the seventh), and whose match reads as
/// an IQ of type `get` holding a `<ping xmlns='urn:xmpp:ping'/>` child, is parsed as a ping
/// request carrying that IQ, with the matched text.
pub proof fn lemma_ping_request_parsed_as_ping(text: Seq<char>, c: Seq<char>, g: crate::events::generic::GenericIqView)
    requires
        spec_first_match(text, 0) == Some((6int, c)),
        spec_iq_from_text(c) == Ok::<crate::events::generic::GenericIqView, crate::events::kinds::EventError>(g),
        g.iq_type == IqType::Get,
        g.element matches Some(b) && find_child(b, qname(Some(ns::PING@), "ping"@)) is Some,
    ensures
        spec_parse(text) == Some((EventView::Stanza(StanzaEventView::IqRequest(IqEventView::Ping(g)), c), c)),
        spec_pattern(6) == IQ@,
{
}

} // verus!
