//! Extracting events from the bytes of an XML stream as they arrive.
use vstd::prelude::*;
use crate::config::{XMPPConfig, DOMAIN};
use crate::element::{XmlElement, ElementView, QualNameView, qname, attr_value, plain_name};
use crate::jid::spec_parse_jid;
use crate::ns;
use crate::stream::{StreamReader, XmlName, XmlAttribute, XmlStep, XmlStepView, XmlNameView, XmlAttributeView,
    spec_started_element, lemma_read_from_keeps_root, MAX_READ_STEPS, name_view, qname_of, attrs_view,
    stream_reader_over, stream_available, read_step, read_element, reader_input, reader_taken, xml_step_at,
    xml_available_at, spec_read_element};
use crate::parser::opt_event_view;
use crate::text::str_eq;
use crate::events::generic::{GenericIq, GenericMessage, spec_iq_from_element, spec_message_read};
use crate::events::interface::{Event, EventView, IqEventView, NonStanzaEventView, StanzaEventView};
use crate::events::open_stream::{OpenStream, OpenStreamView};
use crate::events::simple::{ProceedTls, SuccessTls};
use crate::events::stream_features::{StreamFeatures, spec_features_from_element};

verus! {

/// The syntax errors of the parser that a server's XML declaration causes, and that are
/// passed over.
pub open spec fn spec_tolerated_error(m: Seq<char>) -> bool {
    ||| m == "Unexpected token: <?version"@
    ||| m == "Unexpected token: <?version="@
    ||| m == "Unexpected token: <?version'"@
    ||| m == "Unexpected token: <?version1.0'"@
    ||| m == "Invalid processing instruction: <?xml"@
}

/// Whether a syntax error is one of those passed over.
pub fn tolerated_error(m: &str) -> (r: bool)
    ensures
        r == spec_tolerated_error(m@),
{
    str_eq(m, "Unexpected token: <?version") || str_eq(m, "Unexpected token: <?version=")
        || str_eq(m, "Unexpected token: <?version'") || str_eq(m, "Unexpected token: <?version1.0'")
        || str_eq(m, "Invalid processing instruction: <?xml")
}

/// What the parser does with a step of the stream.
#[derive(Clone, Copy, Debug, PartialEq, Eq, Structural)]
pub enum StepAction {
    /// Go on with the next step.
    Skip,
    /// The stream header: answer with a stream event.
    OpenStream,
    /// An opening tag: read the element it starts, when it is one that makes an event.
    Element,
    /// Stop reading for now.
    Stop,
}

/// The qualified name of the stream header.
pub open spec fn stream_name() -> QualNameView {
    qname(Some(ns::STREAM@), "stream"@)
}

/// What the parser does with a step of the stream.
pub open spec fn spec_step_action(step: XmlStepView) -> StepAction {
    match step {
        XmlStepView::StartElement(n, _) => if qname_of(n) == stream_name() {
            StepAction::OpenStream
        } else {
            StepAction::Element
        },
        XmlStepView::SyntaxError(m) => if spec_tolerated_error(m) {
            StepAction::Skip
        } else {
            StepAction::Stop
        },
        XmlStepView::Failure => StepAction::Stop,
        _ => StepAction::Skip,
    }
}

/// Decides what to do with a step of the stream: skip the declaration, text, closing tags and
/// the known syntax errors of a server's declaration; stop at any other error.
pub fn step_action(step: &XmlStep) -> (r: StepAction)
    ensures
        r == spec_step_action(step@),
{
    match step {
        XmlStep::StartElement(n, _) => {
            let stream = match &n.namespace {
                Some(u) => str_eq(u.as_str(), ns::STREAM) && str_eq(n.local_name.as_str(), "stream"),
                None => false,
            };
            if stream {
                StepAction::OpenStream
            } else {
                StepAction::Element
            }
        },
        XmlStep::SyntaxError(m) => if tolerated_error(m.as_str()) {
            StepAction::Skip
        } else {
            StepAction::Stop
        },
        XmlStep::Failure => StepAction::Stop,
        _ => StepAction::Skip,
    }
}

/// The elements that make an event: the stream features, the TLS proceed answer, the SASL
/// success, IQs and messages.
pub open spec fn spec_wanted(n: QualNameView) -> bool {
    ||| n == qname(Some(ns::STREAM@), "features"@)
    ||| n == qname(Some(ns::TLS@), "proceed"@)
    ||| n == qname(Some(ns::SASL@), "success"@)
    ||| n.name == "iq"@
    ||| n.name == "message"@
}

/// The event an element makes, if any.
pub open spec fn spec_element_event(e: ElementView) -> Option<EventView> {
    if e.tag == qname(Some(ns::STREAM@), "features"@) {
        Some(EventView::NonStanza(NonStanzaEventView::StreamFeatures(spec_features_from_element(e)), Seq::empty()))
    } else if e.tag == qname(Some(ns::TLS@), "proceed"@) {
        Some(EventView::NonStanza(NonStanzaEventView::ProceedTls, Seq::empty()))
    } else if e.tag == qname(Some(ns::SASL@), "success"@) {
        Some(EventView::NonStanza(NonStanzaEventView::SuccessTls, Seq::empty()))
    } else if e.tag.name == "iq"@ {
        match spec_iq_from_element(e) {
            Ok(g) => Some(EventView::Stanza(StanzaEventView::Iq(IqEventView::Generic(g)), Seq::empty())),
            Err(_) => None,
        }
    } else if e.tag.name == "message"@ {
        match spec_message_read(e) {
            Ok(m) => Some(EventView::Stanza(StanzaEventView::Message(m), Seq::empty())),
            Err(_) => None,
        }
    } else {
        None
    }
}

/// The event of the stream header.
pub open spec fn spec_header_event() -> EventView {
    EventView::NonStanza(
        NonStanzaEventView::OpenStream(OpenStreamView { to: Some(DOMAIN@), xmlns: ns::CLIENT@ }),
        Seq::empty(),
    )
}

/// The event the element an opening tag starts makes, read from step `k` of the bytes, and
/// the steps taken by then: nothing read when the element makes no event.
pub open spec fn spec_start_element_event(bytes: Seq<u8>, k: nat, name: crate::stream::XmlNameView, attrs: Seq<crate::stream::XmlAttributeView>) -> (Option<EventView>, nat) {
    if spec_wanted(qname_of(name)) {
        let (e, k2) = spec_read_element(bytes, k, name, attrs);
        (
            match e {
                Some(el) => spec_element_event(el),
                None => None,
            },
            k2,
        )
    } else {
        (None, k)
    }
}

/// What the step at `k` of the bytes gives, when the parser goes on after it: its event, if
/// any, and the steps taken by then.
pub open spec fn spec_step_outcome(bytes: Seq<u8>, k: nat) -> (Option<EventView>, nat) {
    let step = xml_step_at(bytes, k);
    match spec_step_action(step) {
        StepAction::OpenStream => (Some(spec_header_event()), k + 1),
        StepAction::Element => match step {
            XmlStepView::StartElement(n, attrs) => spec_start_element_event(bytes, k + 1, n, attrs),
            _ => (None, k + 1),
        },
        _ => (None, k + 1),
    }
}

/// The event that reading the bytes from step `k` gives, when `seen` events were passed over
/// already and the one after `given` of them is wanted, with `fuel` steps left: nothing when
/// the bytes are used up, at an error, or when the steps run out.
pub open spec fn spec_scan(bytes: Seq<u8>, k: nat, seen: nat, given: nat, fuel: nat) -> Option<EventView>
    decreases fuel,
{
    if fuel == 0 || xml_available_at(bytes, k) == 0 || spec_step_action(xml_step_at(bytes, k)) == StepAction::Stop {
        None
    } else {
        let (ev, k2) = spec_step_outcome(bytes, k);
        match ev {
            Some(x) => if seen == given {
                if given >= usize::MAX {
                    None
                } else {
                    Some(x)
                }
            } else {
                spec_scan(bytes, k2, seen + 1, given, (fuel - 1) as nat)
            },
            None => spec_scan(bytes, k2, seen, given, (fuel - 1) as nat),
        }
    }
}

/// The event of the stream that comes after the first `given` ones, read from its start.
pub open spec fn spec_next_event(bytes: Seq<u8>, given: nat) -> Option<EventView> {
    spec_scan(bytes, 0, 0, given, MAX_EVENT_STEPS as nat)
}

/// Whether an element of this name makes an event.
pub fn wanted(n: &XmlName) -> (r: bool)
    ensures
        r == spec_wanted(name_view(*n)),
{
    let local = n.local_name.as_str();
    match &n.namespace {
        Some(u) => {
            (str_eq(u.as_str(), ns::STREAM) && str_eq(local, "features"))
                || (str_eq(u.as_str(), ns::TLS) && str_eq(local, "proceed"))
                || (str_eq(u.as_str(), ns::SASL) && str_eq(local, "success"))
                || str_eq(local, "iq") || str_eq(local, "message")
        },
        None => str_eq(local, "iq") || str_eq(local, "message"),
    }
}

/// The event an element makes: the stream features, a TLS proceed answer, a SASL success,
/// an IQ that reads as one, or a message that names its recipient.
pub fn element_event(e: XmlElement) -> (r: Option<Event>)
    ensures
        match r {
            Some(x) => spec_element_event(e@) == Some(x@),
            None => spec_element_event(e@) is None,
        },
{
    if e.tag_is(Some(ns::STREAM), "features") {
        Some(StreamFeatures::from_element(&e).to_event())
    } else if e.tag_is(Some(ns::TLS), "proceed") {
        Some(ProceedTls::new(&XMPPConfig::new()).to_event())
    } else if e.tag_is(Some(ns::SASL), "success") {
        Some(SuccessTls::new(&XMPPConfig::new()).to_event())
    } else if str_eq(e.tag.name.as_str(), "iq") {
        match GenericIq::from_element(e) {
            Ok(g) => Some(g.to_event()),
            Err(_) => None,
        }
    } else if str_eq(e.tag.name.as_str(), "message") {
        match GenericMessage::from_element(e) {
            Ok(m) => Some(m.to_event()),
            Err(_) => None,
        }
    } else {
        None
    }
}

/// The most steps one call of `next_event` takes; past them it gives up for now.
pub const MAX_EVENT_STEPS: u64 = 0xffff_ffff_ffff_ffff;

/// Reads the element an opening tag starts, when it is one that makes an event, and gives
/// that event; an element of another name is not read, and the reader is left as it is.
fn parse_start_element(reader: &mut StreamReader, name: XmlName, attributes: Vec<XmlAttribute>) -> (r: Option<Event>)
    ensures
        !spec_wanted(name_view(name)) ==> r is None && *final(reader) == *old(reader),
        ({
            let (ev, k) = spec_start_element_event(reader_input(*old(reader)), reader_taken(*old(reader)), name@, attrs_view(attributes@));
            &&& opt_event_view(r) == ev
            &&& reader_taken(*final(reader)) == k
            &&& reader_input(*final(reader)) == reader_input(*old(reader))
        }),
{
    if !wanted(&name) {
        return None;
    }
    match read_element(reader, &name, &attributes) {
        Some(e) => element_event(e),
        None => None,
    }
}

/// Extracts events from an XML stream fed piece by piece.
///
/// The `xml-rs` pull parser stops for good at an end of input inside a tag, so the stream is
/// read again from its start each time, over all the bytes received, and the events already
/// given are passed over.
pub struct XmppParser {
    /// The bytes received so far.
    received: Vec<u8>,
    /// The number of events already given.
    given: usize,
}

impl XmppParser {
    pub fn new() -> (r: XmppParser)
        ensures
            r.received()@ == Seq::<u8>::empty(),
            r.given() == 0,
    {
        XmppParser { received: Vec::new(), given: 0 }
    }

    /// The bytes received so far.
    pub closed spec fn received(&self) -> Vec<u8> {
        self.received
    }

    /// The number of events already given.
    pub closed spec fn given(&self) -> nat {
        self.given as nat
    }

    /// The number of bytes received so far.
    pub fn available(&self) -> (r: usize)
        ensures
            r == self.received()@.len(),
    {
        self.received.len()
    }

    /// Appends bytes to the stream.
    pub fn feed(&mut self, buf: &[u8])
        ensures
            final(self).received()@ == old(self).received()@ + buf@,
            final(self).given() == old(self).given(),
    {
        let ghost pre = self.received@;
        let mut i: usize = 0;
        while i < buf.len()
            invariant
                0 <= i <= buf@.len(),
                self.received@ == pre + buf@.subrange(0, i as int),
                self.given == old(self).given,
            decreases buf@.len() - i,
        {
            self.received.push(buf[i]);
            proof {
                assert(pre + buf@.subrange(0, i + 1) =~= (pre + buf@.subrange(0, i as int)).push(buf@[i as int]));
            }
            i = i + 1;
        }
        assert(buf@.subrange(0, buf@.len() as int) =~= buf@);
    }

    /// The next event of the stream, once enough of it was received: the stream header, or
    /// the event of an element read whole. Nothing when what was received is used up, or at
    /// an error. An event given counts as given, and is not given again.
    pub fn next_event(&mut self) -> (r: Option<Event>)
        ensures
            final(self).received() == old(self).received(),
            opt_event_view(r) == spec_next_event(old(self).received()@, old(self).given()),
            r is Some ==> final(self).given() == old(self).given() + 1,
            r is None ==> final(self).given() == old(self).given(),
    {
        let mut reader = stream_reader_over(self.received.as_slice());
        let ghost bytes = self.received@;
        let mut seen: usize = 0;
        let mut budget: u64 = MAX_EVENT_STEPS;
        while budget > 0
            invariant
                self.received == old(self).received,
                self.given == old(self).given,
                bytes == old(self).received@,
                reader_input(reader) == bytes,
                seen <= self.given,
                spec_scan(bytes, reader_taken(reader), seen as nat, self.given as nat, budget as nat)
                    == spec_next_event(bytes, self.given as nat),
            decreases budget,
        {
            let ghost k0 = reader_taken(reader);
            budget = budget - 1;
            if stream_available(&reader) == 0 {
                return None;
            }
            let step = read_step(&mut reader);
            let action = step_action(&step);
            let event = match action {
                StepAction::Skip => None,
                StepAction::OpenStream => Some(OpenStream::new(&XMPPConfig::new()).to_event()),
                StepAction::Element => match step {
                    XmlStep::StartElement(name, attributes) => parse_start_element(&mut reader, name, attributes),
                    _ => None,
                },
                StepAction::Stop => {
                    return None;
                },
            };
            proof {
                assert(xml_step_at(bytes, k0) == step@);
                assert(spec_step_outcome(bytes, k0) == (opt_event_view(event), reader_taken(reader)));
            }
            match event {
                Some(e) => {
                    if seen == self.given {
                        if self.given == usize::MAX {
                            return None;
                        }
                        self.given = self.given + 1;
                        return Some(e);
                    }
                    seen = seen + 1;
                },
                None => {},
            }
        }
        None
    }
}

/// An element named `message` (in any namespace) with a `to` attribute makes a message
/// event: the message is sent to the JID that attribute names, keeps the element, and has the
/// element's `id`.
pub proof fn lemma_message_with_recipient_makes_event(e: ElementView, t: Seq<char>)
    requires
        e.tag.name == "message"@,
        attr_value(e.attrs, plain_name("to"@)) == Some(t),
    ensures
        spec_element_event(e) matches Some(EventView::Stanza(StanzaEventView::Message(m), s))
            && m.to == spec_parse_jid(t) && m.element == Some(e) && m.id == attr_value(e.attrs, plain_name("id"@))
            && s.len() == 0,
{
    reveal_strlit("message");
    reveal_strlit("features");
    reveal_strlit("proceed");
    reveal_strlit("success");
    reveal_strlit("iq");
    assert("message"@.len() != "features"@.len());
    assert("message"@[0] != "proceed"@[0]);
    assert("message"@[0] != "success"@[0]);
    assert("message"@.len() != "iq"@.len());
}

/// When the step at `k` opens a `message` element, the parser reads that element whole; when
/// it has a `to` attribute, the step gives a message event for that recipient, and the parser
/// goes on where the element ends.
pub proof fn lemma_message_step_gives_message(
    bytes: Seq<u8>,
    k: nat,
    n: XmlNameView,
    attrs: Seq<XmlAttributeView>,
    el: ElementView,
    k2: nat,
    t: Seq<char>,
)
    requires
        xml_step_at(bytes, k) == XmlStepView::StartElement(n, attrs),
        n.local_name == "message"@,
        spec_read_element(bytes, k + 1, n, attrs) == (Some(el), k2),
        attr_value(el.attrs, plain_name("to"@)) == Some(t),
    ensures
        spec_step_outcome(bytes, k) matches (Some(EventView::Stanza(StanzaEventView::Message(m), _)), k3)
            && k3 == k2 && m.to == spec_parse_jid(t) && m.element == Some(el),
{
    reveal_strlit("message");
    reveal_strlit("stream");
    assert("message"@.len() != "stream"@.len());
    lemma_read_from_keeps_root(bytes, k + 1, seq![spec_started_element(n, attrs)], MAX_READ_STEPS as nat);
    lemma_message_with_recipient_makes_event(el, t);
}

/// The event wanted next is a message when the step where the reading stands opens a `message`
/// element holding a `to` attribute: the parser gives that message, for that recipient.
pub proof fn lemma_next_event_is_the_message(
    bytes: Seq<u8>,
    k: nat,
    given: nat,
    fuel: nat,
    n: XmlNameView,
    attrs: Seq<XmlAttributeView>,
    el: ElementView,
    k2: nat,
    t: Seq<char>,
)
    requires
        fuel > 0,
        given < usize::MAX,
        xml_available_at(bytes, k) > 0,
        xml_step_at(bytes, k) == XmlStepView::StartElement(n, attrs),
        n.local_name == "message"@,
        spec_read_element(bytes, k + 1, n, attrs) == (Some(el), k2),
        attr_value(el.attrs, plain_name("to"@)) == Some(t),
    ensures
        spec_scan(bytes, k, given, given, fuel) matches Some(EventView::Stanza(StanzaEventView::Message(m), _))
            && m.to == spec_parse_jid(t) && m.element == Some(el),
{
    reveal_strlit("message");
    reveal_strlit("stream");
    assert("message"@.len() != "stream"@.len());
    lemma_message_step_gives_message(bytes, k, n, attrs, el, k2, t);
}

} // verus!
