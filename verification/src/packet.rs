//! Packets of a stream: stanzas and stream packets, read from elements and written back.
use vstd::prelude::*;
use vstd::std_specs::convert::FromSpecImpl;
use crate::element::{XmlElement, ElementView, plain_name, qname};
use crate::ns;
use crate::stream::{StreamReader, XmlAttribute, XmlName, name_view, attrs_view, read_element, reader_input, reader_taken,
    spec_read_element};
use crate::xml::{write_xml, xml_text};
use crate::codec::spec_strip_self_closing;
use crate::text::str_eq;
use crate::packet::non_stanza::{Auth, Bind, CloseStream, NonStanza, NonStanzaView, OpenStream, ProceedTls, SASLSuccess,
    SendError, StartTls, StreamError, StreamFeatures, spec_exchange_of, spec_features_of, spec_header_fields,
    spec_header_element, spec_non_stanza_element};
use crate::packet::stanza::{GenericIq, Stanza, StanzaView, spec_iq_read, spec_stanza_element};
use crate::jid::opt_view;

pub mod non_stanza;
pub mod stanza;

verus! {

/// The mark of the stream packets.
pub trait NonStanzaTrait {}

/// A packet of a stream.
#[derive(Debug)]
pub enum Packet {
    /// Represent a packet which is an XML Stream
    NonStanza(Box<NonStanza>),
    /// Represent a packet which isn't an XML Stanza
    Stanza(Box<Stanza>),
}

pub enum PacketView {
    NonStanza(NonStanzaView),
    Stanza(StanzaView),
}

impl View for Packet {
    type V = PacketView;

    open spec fn view(&self) -> PacketView {
        match self {
            Packet::NonStanza(n) => PacketView::NonStanza((**n)@),
            Packet::Stanza(s) => PacketView::Stanza((**s)@),
        }
    }
}

/// Why no packet could be read.
#[derive(Clone, Copy, Debug, PartialEq, Eq, Structural)]
pub enum PacketParsingError {
    Final,
    /// The stream does not hold a well-formed element.
    Xml,
    /// The element does not hold what the packet needs.
    Io,
    /// The element is not one a packet is made of.
    Unknown,
}

/// The packet an element is read as.
pub open spec fn spec_packet_of(e: ElementView) -> Result<PacketView, PacketParsingError> {
    if e.tag == qname(Some(ns::STREAM@), "features"@) {
        Ok(PacketView::NonStanza(NonStanzaView::StreamFeatures(spec_features_of(e))))
    } else if e.tag == qname(Some(ns::SASL@), "auth"@) {
        Ok(PacketView::NonStanza(NonStanzaView::Auth(spec_exchange_of(e))))
    } else if e.tag == qname(Some(ns::TLS@), "starttls"@) {
        Ok(PacketView::NonStanza(NonStanzaView::StartTls))
    } else if e.tag == qname(Some(ns::TLS@), "proceed"@) {
        Ok(PacketView::NonStanza(NonStanzaView::ProceedTls(spec_exchange_of(e))))
    } else if e.tag == qname(Some(ns::CLIENT@), "iq"@) {
        match spec_iq_read(e) {
            Ok(g) => Ok(PacketView::Stanza(StanzaView::IQ(g))),
            Err(_) => Err(PacketParsingError::Io),
        }
    } else if e.tag == plain_name("message"@) {
        Ok(PacketView::Stanza(StanzaView::Message(e)))
    } else if e.tag == plain_name("presence"@) {
        Ok(PacketView::Stanza(StanzaView::Presence(e)))
    } else {
        Err(PacketParsingError::Unknown)
    }
}

pub open spec fn packet_result_view(r: Result<Packet, PacketParsingError>) -> Result<PacketView, PacketParsingError> {
    match r {
        Ok(p) => Ok(p@),
        Err(e) => Err(e),
    }
}

/// The text of a packet: its element written; a stream header is written without end tag,
/// the stream staying open.
pub open spec fn spec_packet_text(p: Packet, fresh: Seq<char>) -> Result<Seq<char>, SendError> {
    match p {
        Packet::NonStanza(n) => match *n {
            NonStanza::OpenStream(s) => Ok(spec_strip_self_closing(xml_text(spec_header_element(
                s.id@, s.lang@, s.version@, opt_view(s.to), opt_view(s.from))))),
            _ => match spec_non_stanza_element(*n, fresh) {
                Ok(e) => Ok(xml_text(e)),
                Err(x) => Err(x),
            },
        },
        Packet::Stanza(s) => match spec_stanza_element((*s)@) {
            Some(e) => Ok(xml_text(e)),
            None => Err(SendError::NotSentBack),
        },
    }
}

impl Packet {
    /// Reads a packet out of an element.
    pub fn try_from_element(element: XmlElement) -> (r: Result<Packet, PacketParsingError>)
        ensures
            packet_result_view(r) == spec_packet_of(element@),
    {
        if element.tag_is(Some(ns::STREAM), "features") {
            Ok(Packet::NonStanza(Box::new(NonStanza::StreamFeatures(StreamFeatures::from_element(&element)))))
        } else if element.tag_is(Some(ns::SASL), "auth") {
            Ok(Packet::NonStanza(Box::new(NonStanza::Auth(Auth::from_element(&element)))))
        } else if element.tag_is(Some(ns::TLS), "starttls") {
            Ok(Packet::NonStanza(Box::new(NonStanza::StartTls(StartTls::from_element(&element)))))
        } else if element.tag_is(Some(ns::TLS), "proceed") {
            Ok(Packet::NonStanza(Box::new(NonStanza::ProceedTls(ProceedTls::from_element(&element)))))
        } else if element.tag_is(Some(ns::CLIENT), "iq") {
            match GenericIq::from_element(&element) {
                Ok(g) => Ok(Packet::Stanza(Box::new(Stanza::IQ(g)))),
                Err(_) => Err(PacketParsingError::Io),
            }
        } else if element.tag_is(None, "message") {
            Ok(Packet::Stanza(Box::new(Stanza::Message(element))))
        } else if element.tag_is(None, "presence") {
            Ok(Packet::Stanza(Box::new(Stanza::Presence(element))))
        } else {
            Err(PacketParsingError::Unknown)
        }
    }

    /// Reads the packet an opening tag starts: a stream header is made of the tag alone, and
    /// the reader is left as it is; anything else is the element read up to its closing tag,
    /// or an XML error when the stream does not hold one.
    pub fn parse(buffer: &mut StreamReader, name: XmlName, attributes: Vec<XmlAttribute>) -> (r: Result<Packet, PacketParsingError>)
        ensures
            name_view(name) == qname(Some(ns::STREAM@), "stream"@) ==> (r matches Ok(p) && p@ matches PacketView::NonStanza(
                NonStanzaView::OpenStream(id, lang, version, Some(to), None)) && (to, lang, version) == spec_header_fields(attributes@)
                && id.len() == 36)
                && *final(buffer) == *old(buffer),
            name_view(name) != qname(Some(ns::STREAM@), "stream"@) ==> ({
                let (e, k) = spec_read_element(reader_input(*old(buffer)), reader_taken(*old(buffer)), name@, attrs_view(attributes@));
                &&& packet_result_view(r) == match e {
                    Some(el) => spec_packet_of(el),
                    None => Err(PacketParsingError::Xml),
                }
                &&& reader_taken(*final(buffer)) == k
                &&& reader_input(*final(buffer)) == reader_input(*old(buffer))
            }),
    {
        let is_stream = match &name.namespace {
            Some(u) => str_eq(u.as_str(), ns::STREAM) && str_eq(name.local_name.as_str(), "stream"),
            None => false,
        };
        if is_stream {
            let o = OpenStream::from_start_element(&attributes);
            return Ok(Packet::NonStanza(Box::new(NonStanza::OpenStream(o))));
        }
        match read_element(buffer, &name, &attributes) {
            Some(e) => Packet::try_from_element(e),
            None => Err(PacketParsingError::Xml),
        }
    }

    /// The text to send for a packet; what a client sends (authentication, TLS request) is
    /// refused, and so is an IQ built here, which has no element.
    pub fn write_to_string(&self) -> (r: Result<String, SendError>)
        ensures
            exists|fresh: Seq<char>| #![trigger spec_packet_text(*self, fresh)] match (r, spec_packet_text(*self, fresh)) {
                (Ok(t), Ok(v)) => t@ == v,
                (Err(x), Err(y)) => x == y,
                _ => false,
            },
    {
        match self {
            Packet::NonStanza(n) => match &**n {
                NonStanza::OpenStream(s) => {
                    let t = s.to_text();
                    proof {
                        // the identifier of a bind answer plays no part here
                        assert(spec_packet_text(*self, Seq::empty()) matches Ok(v) && t@ == v);
                    }
                    Ok(t)
                },
                _ => {
                    let r = n.to_element();
                    proof {
                        let fresh = choose|fresh: Seq<char>| #![trigger spec_non_stanza_element(**n, fresh)] match (r, spec_non_stanza_element(**n, fresh)) {
                            (Ok(e), Ok(v)) => e@ == v,
                            (Err(x), Err(y)) => x == y,
                            _ => false,
                        };
                        assert(spec_packet_text(*self, fresh) == match spec_non_stanza_element(**n, fresh) {
                            Ok(e) => Ok::<Seq<char>, SendError>(xml_text(e)),
                            Err(x) => Err(x),
                        });
                    }
                    match r {
                        Ok(e) => Ok(write_xml(&e)),
                        Err(x) => Err(x),
                    }
                },
            },
            Packet::Stanza(s) => {
                proof {
                    // the identifier of a bind answer plays no part here
                    assert(spec_packet_text(*self, Seq::empty()) == match spec_stanza_element((**s)@) {
                        Some(e) => Ok::<Seq<char>, SendError>(xml_text(e)),
                        None => Err(SendError::NotSentBack),
                    });
                }
                let has_element = match &**s {
                    Stanza::IQ(iq) => iq.get_element().is_some(),
                    _ => true,
                };
                if has_element {
                    Ok(write_xml(&s.to_element()))
                } else {
                    Err(SendError::NotSentBack)
                }
            },
        }
    }
}

impl From<NonStanza> for Packet {
    fn from(s: NonStanza) -> (r: Packet) {
        Packet::NonStanza(Box::new(s))
    }
}

impl FromSpecImpl<NonStanza> for Packet {
    open spec fn obeys_from_spec() -> bool {
        true
    }

    open spec fn from_spec(s: NonStanza) -> Packet {
        Packet::NonStanza(Box::new(s))
    }
}

impl From<Stanza> for Packet {
    fn from(s: Stanza) -> (r: Packet) {
        Packet::Stanza(Box::new(s))
    }
}

impl FromSpecImpl<Stanza> for Packet {
    open spec fn obeys_from_spec() -> bool {
        true
    }

    open spec fn from_spec(s: Stanza) -> Packet {
        Packet::Stanza(Box::new(s))
    }
}

impl From<GenericIq> for Packet {
    fn from(s: GenericIq) -> (r: Packet) {
        Packet::Stanza(Box::new(Stanza::IQ(s)))
    }
}

impl FromSpecImpl<GenericIq> for Packet {
    open spec fn obeys_from_spec() -> bool {
        true
    }

    open spec fn from_spec(s: GenericIq) -> Packet {
        Packet::Stanza(Box::new(Stanza::IQ(s)))
    }
}

impl From<Auth> for Packet {
    fn from(s: Auth) -> (r: Packet) {
        Packet::NonStanza(Box::new(NonStanza::Auth(s)))
    }
}

impl FromSpecImpl<Auth> for Packet {
    open spec fn obeys_from_spec() -> bool {
        true
    }

    open spec fn from_spec(s: Auth) -> Packet {
        Packet::NonStanza(Box::new(NonStanza::Auth(s)))
    }
}

impl From<Bind> for Packet {
    fn from(s: Bind) -> (r: Packet) {
        Packet::NonStanza(Box::new(NonStanza::Bind(s)))
    }
}

impl FromSpecImpl<Bind> for Packet {
    open spec fn obeys_from_spec() -> bool {
        true
    }

    open spec fn from_spec(s: Bind) -> Packet {
        Packet::NonStanza(Box::new(NonStanza::Bind(s)))
    }
}

impl From<CloseStream> for Packet {
    fn from(s: CloseStream) -> (r: Packet) {
        Packet::NonStanza(Box::new(NonStanza::CloseStream(s)))
    }
}

impl FromSpecImpl<CloseStream> for Packet {
    open spec fn obeys_from_spec() -> bool {
        true
    }

    open spec fn from_spec(s: CloseStream) -> Packet {
        Packet::NonStanza(Box::new(NonStanza::CloseStream(s)))
    }
}

impl From<OpenStream> for Packet {
    fn from(s: OpenStream) -> (r: Packet) {
        Packet::NonStanza(Box::new(NonStanza::OpenStream(s)))
    }
}

impl FromSpecImpl<OpenStream> for Packet {
    open spec fn obeys_from_spec() -> bool {
        true
    }

    open spec fn from_spec(s: OpenStream) -> Packet {
        Packet::NonStanza(Box::new(NonStanza::OpenStream(s)))
    }
}

impl From<ProceedTls> for Packet {
    fn from(s: ProceedTls) -> (r: Packet) {
        Packet::NonStanza(Box::new(NonStanza::ProceedTls(s)))
    }
}

impl FromSpecImpl<ProceedTls> for Packet {
    open spec fn obeys_from_spec() -> bool {
        true
    }

    open spec fn from_spec(s: ProceedTls) -> Packet {
        Packet::NonStanza(Box::new(NonStanza::ProceedTls(s)))
    }
}

impl From<SASLSuccess> for Packet {
    fn from(s: SASLSuccess) -> (r: Packet) {
        Packet::NonStanza(Box::new(NonStanza::SASLSuccess(s)))
    }
}

impl FromSpecImpl<SASLSuccess> for Packet {
    open spec fn obeys_from_spec() -> bool {
        true
    }

    open spec fn from_spec(s: SASLSuccess) -> Packet {
        Packet::NonStanza(Box::new(NonStanza::SASLSuccess(s)))
    }
}

impl From<StartTls> for Packet {
    fn from(s: StartTls) -> (r: Packet) {
        Packet::NonStanza(Box::new(NonStanza::StartTls(s)))
    }
}

impl FromSpecImpl<StartTls> for Packet {
    open spec fn obeys_from_spec() -> bool {
        true
    }

    open spec fn from_spec(s: StartTls) -> Packet {
        Packet::NonStanza(Box::new(NonStanza::StartTls(s)))
    }
}

impl From<StreamError> for Packet {
    fn from(s: StreamError) -> (r: Packet) {
        Packet::NonStanza(Box::new(NonStanza::StreamError(s)))
    }
}

impl FromSpecImpl<StreamError> for Packet {
    open spec fn obeys_from_spec() -> bool {
        true
    }

    open spec fn from_spec(s: StreamError) -> Packet {
        Packet::NonStanza(Box::new(NonStanza::StreamError(s)))
    }
}

impl From<StreamFeatures> for Packet {
    fn from(s: StreamFeatures) -> (r: Packet) {
        Packet::NonStanza(Box::new(NonStanza::StreamFeatures(s)))
    }
}

impl FromSpecImpl<StreamFeatures> for Packet {
    open spec fn obeys_from_spec() -> bool {
        true
    }

    open spec fn from_spec(s: StreamFeatures) -> Packet {
        Packet::NonStanza(Box::new(NonStanza::StreamFeatures(s)))
    }
}

/// An element named `message` or `presence`, without namespace, is read as the stanza packet
/// of that kind holding the element itself; it is never refused.
pub proof fn lemma_plain_stanza_packets(e: ElementView)
    ensures
        e.tag == plain_name("message"@) ==> spec_packet_of(e) == Ok::<PacketView, PacketParsingError>(
            PacketView::Stanza(StanzaView::Message(e))),
        e.tag == plain_name("presence"@) ==> spec_packet_of(e) == Ok::<PacketView, PacketParsingError>(
            PacketView::Stanza(StanzaView::Presence(e))),
        spec_packet_of(e) is Ok ==> e.tag.ns is Some || e.tag == plain_name("message"@) || e.tag == plain_name("presence"@),
{
    reveal_strlit("message");
    reveal_strlit("presence");
    assert("message"@.len() != "presence"@.len());
}

} // verus!
