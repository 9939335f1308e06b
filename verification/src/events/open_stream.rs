//! The stream header that opens an XML stream.
use vstd::prelude::*;
use crate::config::XMPPConfig;
use crate::element::{XmlElement, ElementView, NsPrefixView, attrs_set, attr_value, plain_name, qname, spec_empty_element};
use crate::jid::opt_view;
use crate::ns;
use crate::text::concat;
use crate::xml::{parse_xml, root_declares_namespace, xml_parse, xml_root_declares};
use crate::events::kinds::EventError;
use crate::events::interface::{Event, NonStanzaEvent, EventView, NonStanzaEventView};

verus! {

pub struct OpenStream {
    pub config: XMPPConfig,
    pub to: Option<String>,
    pub xmlns: String,
}

pub struct OpenStreamView {
    pub to: Option<Seq<char>>,
    pub xmlns: Seq<char>,
}

impl View for OpenStream {
    type V = OpenStreamView;

    open spec fn view(&self) -> OpenStreamView {
        OpenStreamView { to: opt_view(self.to), xmlns: self.xmlns@ }
    }
}

/// The text of a stream header.
pub open spec fn spec_open_stream_text(to: Option<Seq<char>>, xmlns: Seq<char>) -> Seq<char> {
    "<?xml version='1.0'?><stream:stream version='1.0' xmlns:stream='"@ + ns::STREAM@ + "' to='"@
        + match to {
        Some(t) => t,
        None => Seq::empty(),
    } + "' xmlns='"@ + xmlns + "'>"@
}

/// The element of a stream header: created as `{jabber:client}stream`, with the `stream`
/// prefix for the streams namespace, then named `{streams}stream`, with `version` and `to`.
pub open spec fn spec_open_stream_element(to: Option<Seq<char>>) -> ElementView {
    let a1 = attrs_set(Seq::empty(), plain_name("version"@), "1.0"@);
    let a2 = match to {
        Some(t) => attrs_set(a1, plain_name("to"@), t),
        None => a1,
    };
    ElementView {
        tag: qname(Some(ns::STREAM@), "stream"@),
        origin: Some(qname(Some(ns::CLIENT@), "stream"@)),
        attrs: a2,
        prefixes: seq![NsPrefixView { url: ns::STREAM@, prefix: "stream"@ }],
        ..spec_empty_element(qname(Some(ns::CLIENT@), "stream"@))
    }
}

/// The text `OpenStream::from_str` reads: the header followed by the end of the stream.
pub open spec fn spec_closed_header(s: Seq<char>) -> Seq<char> {
    s + "</stream:stream>"@
}

impl OpenStream {
    /// The header a client sends to open a stream to the configured domain.
    pub fn new(config: &XMPPConfig) -> (r: OpenStream)
        ensures
            r@.to == Some(config.domain()),
            r@.xmlns == ns::CLIENT@,
    {
        OpenStream {
            config: config.copy(),
            to: Some(config.get_domain().to_owned()),
            xmlns: ns::CLIENT.to_owned(),
        }
    }

    /// Reads a stream header out of its text, closed by `</stream:stream>`: `to` is the `to`
    /// attribute; the namespace is the client one when the root declares it, the server one
    /// otherwise. A text that does not parse is refused.
    pub fn from_str(s: &str) -> (r: Result<OpenStream, EventError>)
        ensures
            match xml_parse(spec_closed_header(s@)) {
                Some(e) => r matches Ok(o) && o@.to == attr_value(e.attrs, plain_name("to"@))
                    && o@.xmlns == (if xml_root_declares(spec_closed_header(s@), ns::CLIENT@) {
                        ns::CLIENT@
                    } else {
                        ns::SERVER@
                    }),
                None => r == Err::<OpenStream, EventError>(EventError::InvalidInput),
            },
    {
        let full = concat(s, "</stream:stream>");
        let root = match parse_xml(full.as_str()) {
            Some(root) => root,
            None => return Err(EventError::InvalidInput),
        };
        let to = match root.get_attr("to") {
            Some(t) => Some(t.to_owned()),
            None => None,
        };
        let declared = match root_declares_namespace(full.as_str(), ns::CLIENT) {
            Some(b) => b,
            None => return Err(EventError::InvalidInput),
        };
        let xmlns = if declared { ns::CLIENT } else { ns::SERVER };
        Ok(OpenStream { config: XMPPConfig::new(), to, xmlns: xmlns.to_owned() })
    }

    /// The text of this header.
    pub fn to_string(&self) -> (r: String)
        ensures
            r@ == spec_open_stream_text(self@.to, self@.xmlns),
    {
        let mut out = "<?xml version='1.0'?><stream:stream version='1.0' xmlns:stream='".to_owned();
        out.append(ns::STREAM);
        out.append("' to='");
        match &self.to {
            Some(t) => out.append(t.as_str()),
            None => {},
        }
        out.append("' xmlns='");
        out.append(self.xmlns.as_str());
        out.append("'>");
        proof {
            let to = match opt_view(self.to) {
                Some(t) => t,
                None => Seq::<char>::empty(),
            };
            assert(out@ =~= spec_open_stream_text(opt_view(self.to), self.xmlns@));
        }
        out
    }

    /// The element of this header.
    pub fn to_element(&self) -> (r: XmlElement)
        ensures
            r@ == spec_open_stream_element(self@.to),
    {
        let mut element = XmlElement::new(Some(ns::CLIENT), "stream");
        element.set_namespace_prefix(ns::STREAM, "stream");
        element.set_tag(Some(ns::STREAM), "stream");
        element.set_attr("version", "1.0");
        match &self.to {
            Some(t) => element.set_attr("to", t.as_str()),
            None => {},
        }
        proof {
            assert(element@.prefixes =~= seq![NsPrefixView { url: ns::STREAM@, prefix: "stream"@ }]);
        }
        element
    }

    pub fn copy(&self) -> (r: OpenStream)
        ensures
            r@ == self@,
    {
        OpenStream {
            config: self.config.copy(),
            to: match &self.to {
                Some(t) => Some(t.clone()),
                None => None,
            },
            xmlns: self.xmlns.clone(),
        }
    }

    /// The event of a stream header.
    pub fn to_event(&self) -> (r: Event)
        ensures
            r@ == EventView::NonStanza(NonStanzaEventView::OpenStream(self@), Seq::empty()),
    {
        Event::NonStanza(Box::new(NonStanzaEvent::OpenStreamEvent(Box::new(self.copy()))), String::new())
    }
}

} // verus!
