//! Turning events into the text sent on the wire.
use vstd::prelude::*;
use crate::events::auth::{spec_auth_element, spec_sasl_username};
use crate::element::{ElementView, attr_value, plain_name, qname, lemma_set_then_get_attr};
use crate::plain::base64_text;
use crate::ns;
use vstd::utf8::encode_utf8;
use crate::events::interface::{Event, EventView, NonStanzaEvent, NonStanzaEventView, spec_stanza_element};
use crate::events::open_stream::spec_open_stream_element;
use crate::events::simple::spec_start_tls_element;
use crate::events::stream_features::spec_features_element;
use crate::text::{owned, substring};
use crate::xml::{write_xml, xml_text};
use crate::xmpp_parser::{XmppParser, spec_next_event};
use crate::parser::opt_event_view;

verus! {

/// The text that closes a stream.
pub const CLOSE_STREAM_TEXT: &'static str = "</stream:stream>";

/// A text ending with ` />` ends with `>` instead: a stream header is never closed.
pub open spec fn spec_strip_self_closing(s: Seq<char>) -> Seq<char> {
    if s.len() >= 3 && s.subrange(s.len() - 3, s.len() as int) == " />"@ {
        s.subrange(0, s.len() - 3) + ">"@
    } else {
        s
    }
}

/// The text sent for an event: the written element for the stanzas, the authentication,
/// the TLS request and the stream features; the header written without closing it; the
/// closing tag for the end of the stream; nothing for the TLS and SASL answers and for
/// unknown events.
pub open spec fn spec_encode(e: EventView) -> Seq<char> {
    match e {
        EventView::Stanza(s, _) => xml_text(spec_stanza_element(s)),
        EventView::NonStanza(n, _) => match n {
            NonStanzaEventView::Auth(j, p) => xml_text(spec_auth_element(j, p)),
            NonStanzaEventView::StartTls => xml_text(spec_start_tls_element()),
            NonStanzaEventView::CloseStream => CLOSE_STREAM_TEXT@,
            NonStanzaEventView::OpenStream(o) => spec_strip_self_closing(xml_text(spec_open_stream_element(o.to))),
            NonStanzaEventView::ProceedTls => Seq::empty(),
            NonStanzaEventView::SuccessTls => Seq::empty(),
            NonStanzaEventView::StreamFeatures(f) => xml_text(spec_features_element(f)),
        },
        EventView::Unknown(_) => Seq::empty(),
    }
}

/// Replaces a final ` />` by `>`.
pub fn strip_self_closing(s: String) -> (r: String)
    ensures
        r@ == spec_strip_self_closing(s@),
{
    let n = s.unicode_len();
    if n >= 3 && s.get_char(n - 3) == ' ' && s.get_char(n - 2) == '/' && s.get_char(n - 1) == '>' {
        let mut r = substring(s.as_str(), 0, n - 3);
        r.append(">");
        proof {
            assert(s@.subrange(s@.len() - 3, s@.len() as int) =~= " />"@) by {
                reveal_strlit(" />");
            }
            reveal_strlit(">");
        }
        r
    } else {
        proof {
            reveal_strlit(" />");
            if n >= 3 && s@.subrange(s@.len() - 3, s@.len() as int) == " />"@ {
                assert(s@.subrange(s@.len() - 3, s@.len() as int)[0] == s@[n - 3]);
                assert(s@.subrange(s@.len() - 3, s@.len() as int)[1] == s@[n - 2]);
                assert(s@.subrange(s@.len() - 3, s@.len() as int)[2] == s@[n - 1]);
            }
        }
        s
    }
}

/// The text to send for a frame.
pub fn encode_event(frame: &Event) -> (r: String)
    ensures
        r@ == spec_encode(frame@),
{
    match frame {
        Event::Stanza(stanza, _) => write_xml(&stanza.to_element()),
        Event::NonStanza(non_stanza, _) => match &**non_stanza {
            NonStanzaEvent::AuthEvent(event) => write_xml(&event.to_element()),
            NonStanzaEvent::StartTlsEvent(event) => write_xml(&event.to_element()),
            NonStanzaEvent::CloseStreamEvent => owned(CLOSE_STREAM_TEXT),
            NonStanzaEvent::OpenStreamEvent(event) => strip_self_closing(write_xml(&event.to_element())),
            NonStanzaEvent::ProceedTlsEvent(_) => String::new(),
            NonStanzaEvent::SuccessTlsEvent(_) => String::new(),
            NonStanzaEvent::StreamFeaturesEvent(event) => write_xml(&event.to_element()),
        },
        Event::Unknown(..) => String::new(),
    }
}

/// Turns the bytes of an XML stream into events, and events into text.
pub struct XMPPCodec {
    /// The parser holds the bytes received and extracts the events
    pub parser: XmppParser,
}

impl XMPPCodec {
    /// A codec with an empty stream.
    pub fn new() -> (r: XMPPCodec)
        ensures
            r.parser.received()@ == Seq::<u8>::empty(),
            r.parser.given() == 0,
    {
        XMPPCodec { parser: XmppParser::new() }
    }

    /// Appends received bytes to the stream and gives the next event it holds, if any; the
    /// bytes are all taken, the caller empties its buffer.
    pub fn decode(&mut self, buf: &[u8]) -> (r: Option<Event>)
        ensures
            final(self).parser.received()@ == old(self).parser.received()@ + buf@,
            r is Some ==> final(self).parser.given() == old(self).parser.given() + 1,
            r is None ==> final(self).parser.given() == old(self).parser.given(),
            opt_event_view(r) == spec_next_event(final(self).parser.received()@, old(self).parser.given()),
    {
        self.parser.feed(buf);
        self.parser.next_event()
    }

    /// The text to send for a frame.
    pub fn encode(&mut self, frame: Event) -> (r: String)
        ensures
            r@ == spec_encode(frame@),
            *final(self) == *old(self),
    {
        encode_event(&frame)
    }
}

impl Default for XMPPCodec {
    fn default() -> (r: XMPPCodec)
        ensures
            r.parser.received()@ == Seq::<u8>::empty(),
            r.parser.given() == 0,
    {
        XMPPCodec::new()
    }
}

/// The text sent for an authentication request made from the JID `j` and the password `p` is
/// the written `<auth xmlns='urn:ietf:params:xml:ns:xmpp-sasl' mechanism='PLAIN'>` element,
/// with no child, whose text is the base64 form of a zero byte, the username, a zero byte and
/// the password.
pub proof fn lemma_auth_frame_text(j: crate::jid::JidView, p: Seq<char>, source: Seq<char>)
    ensures
        exists|a: ElementView| #![trigger xml_text(a)]
            spec_encode(EventView::NonStanza(NonStanzaEventView::Auth(j, p), source)) == xml_text(a)
            && a.tag == qname(Some(ns::SASL@), "auth"@)
            && attr_value(a.attrs, plain_name("mechanism"@)) == Some("PLAIN"@)
            && a.attrs.len() == 1
            && a.children.len() == 0
            && a.text == base64_text(seq![0u8] + encode_utf8(spec_sasl_username(j)) + seq![0u8] + encode_utf8(p)),
{
    let a = spec_auth_element(j, p);
    lemma_set_then_get_attr(Seq::empty(), plain_name("mechanism"@), "PLAIN"@);
    assert(spec_encode(EventView::NonStanza(NonStanzaEventView::Auth(j, p), source)) == xml_text(a));
}

} // verus!
