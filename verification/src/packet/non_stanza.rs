//! Stream packets: everything of a stream that is not a stanza.
use vstd::prelude::*;
use crate::codec::{spec_strip_self_closing, strip_self_closing};
use crate::element::{XmlElement, ElementView, NsPrefixView, QualNameView, attr_value, attrs_set, find_child, plain_name,
    qname, spec_empty_element};
use crate::jid::opt_view;
use crate::ns;
use crate::stream::{XmlAttribute, name_view};
use crate::text::{concat, str_eq};
use crate::xml::{write_xml, xml_text};

verus! {

/// What an authentication request or a TLS answer carries: the mechanism named and the text.
pub struct ExchangeView {
    pub mechanism: Option<Seq<char>>,
    pub challenge: Option<Seq<char>>,
}

/// What `from_element` reads of an authentication request or a TLS answer: the `mechanism`
/// attribute and the text.
pub open spec fn spec_exchange_of(e: ElementView) -> ExchangeView {
    ExchangeView { mechanism: attr_value(e.attrs, plain_name("mechanism"@)), challenge: Some(e.text) }
}

fn opt_copy(o: &Option<String>) -> (r: Option<String>)
    ensures
        opt_view(r) == opt_view(*o),
{
    match o {
        Some(s) => Some(s.clone()),
        None => None,
    }
}

/// The value of an attribute without namespace, copied.
fn attr_copy(e: &XmlElement, name: &str) -> (r: Option<String>)
    ensures
        opt_view(r) == attr_value(e@.attrs, plain_name(name@)),
{
    match e.get_attr(name) {
        Some(v) => Some(v.to_owned()),
        None => None,
    }
}

/// An authentication request.
#[derive(Clone, Debug)]
pub struct Auth {
    mechanism: Option<String>,
    challenge: Option<String>,
}

impl View for Auth {
    type V = ExchangeView;

    closed spec fn view(&self) -> ExchangeView {
        ExchangeView { mechanism: opt_view(self.mechanism), challenge: opt_view(self.challenge) }
    }
}

impl Auth {
    /// Get a reference to the auth's challenge.
    pub fn challenge(&self) -> (r: &Option<String>)
        ensures
            opt_view(*r) == self@.challenge,
    {
        &self.challenge
    }

    /// Get a reference to the auth's mechanism.
    pub fn mechanism(&self) -> (r: Option<&str>)
        ensures
            match r {
                Some(m) => self@.mechanism == Some(m@),
                None => self@.mechanism is None,
            },
    {
        match &self.mechanism {
            Some(m) => Some(m.as_str()),
            None => None,
        }
    }

    pub fn from_element(e: &XmlElement) -> (r: Auth)
        ensures
            r@ == spec_exchange_of(e@),
    {
        Auth { mechanism: attr_copy(e, "mechanism"), challenge: Some(e.text().to_owned()) }
    }

    pub fn copy(&self) -> (r: Auth)
        ensures
            r@ == self@,
    {
        Auth { mechanism: opt_copy(&self.mechanism), challenge: opt_copy(&self.challenge) }
    }
}

impl Default for Auth {
    fn default() -> (r: Auth)
        ensures
            r@ == (ExchangeView { mechanism: None, challenge: None }),
    {
        Auth { mechanism: None, challenge: None }
    }
}

/// The answer to a TLS request.
#[derive(Clone, Debug)]
pub struct ProceedTls {
    mechanism: Option<String>,
    challenge: Option<String>,
}

impl View for ProceedTls {
    type V = ExchangeView;

    closed spec fn view(&self) -> ExchangeView {
        ExchangeView { mechanism: opt_view(self.mechanism), challenge: opt_view(self.challenge) }
    }
}

impl ProceedTls {
    pub fn from_element(e: &XmlElement) -> (r: ProceedTls)
        ensures
            r@ == spec_exchange_of(e@),
    {
        ProceedTls { mechanism: attr_copy(e, "mechanism"), challenge: Some(e.text().to_owned()) }
    }

    /// `<proceed xmlns='urn:ietf:params:xml:ns:xmpp-tls'/>`
    pub fn to_element(&self) -> (r: XmlElement)
        ensures
            r@ == spec_empty_element(qname(Some(ns::TLS@), "proceed"@)),
    {
        XmlElement::new(Some(ns::TLS), "proceed")
    }

    pub fn copy(&self) -> (r: ProceedTls)
        ensures
            r@ == self@,
    {
        ProceedTls { mechanism: opt_copy(&self.mechanism), challenge: opt_copy(&self.challenge) }
    }
}

impl Default for ProceedTls {
    fn default() -> (r: ProceedTls)
        ensures
            r@ == (ExchangeView { mechanism: None, challenge: None }),
    {
        ProceedTls { mechanism: None, challenge: None }
    }
}

/// The request to start TLS.
#[derive(Clone, Debug)]
pub struct StartTls {}

impl StartTls {
    pub fn from_element(e: &XmlElement) -> (r: StartTls) {
        StartTls {}
    }
}

impl Default for StartTls {
    fn default() -> (r: StartTls) {
        StartTls {}
    }
}

/// The success of a SASL authentication.
#[derive(Clone, Debug)]
pub struct SASLSuccess {}

impl SASLSuccess {
    /// `<success xmlns='urn:ietf:params:xml:ns:xmpp-sasl'/>`
    pub fn to_element(&self) -> (r: XmlElement)
        ensures
            r@ == spec_empty_element(qname(Some(ns::SASL@), "success"@)),
    {
        XmlElement::new(Some(ns::SASL), "success")
    }
}

impl Default for SASLSuccess {
    fn default() -> (r: SASLSuccess) {
        SASLSuccess {}
    }
}

/// The end of a stream.
#[derive(Clone, Debug)]
pub struct CloseStream {}

impl CloseStream {
    /// `<stream:stream/>`, the element whose end tag closes the stream.
    pub fn to_element(&self) -> (r: XmlElement)
        ensures
            r@ == spec_empty_element(qname(Some(ns::STREAM@), "stream"@)),
    {
        XmlElement::new(Some(ns::STREAM), "stream")
    }
}

/// The text given as resource by the server-side bind answer.
pub const BOUND_PREFIX: &'static str = "SOME@localhost/";

/// A resource binding request.
#[derive(Clone, Debug)]
pub struct Bind {
    resource: Option<String>,
}

impl View for Bind {
    type V = Option<Seq<char>>;

    closed spec fn view(&self) -> Option<Seq<char>> {
        opt_view(self.resource)
    }
}

pub open spec fn bind_qname() -> QualNameView {
    qname(Some(ns::BIND@), "bind"@)
}

/// The answer to a bind request: `<bind xmlns='urn:ietf:params:xml:ns:xmpp-bind'>` holding
/// `<jid>` with the bound JID.
pub open spec fn spec_bind_answer(jid: Seq<char>) -> ElementView {
    ElementView {
        children: seq![ElementView { text: jid, ..spec_empty_element(qname(Some(ns::BIND@), "jid"@)) }],
        ..spec_empty_element(bind_qname())
    }
}

/// The resource asked for, or `fresh` when none was.
pub open spec fn spec_resource_or(resource: Option<Seq<char>>, fresh: Seq<char>) -> Seq<char> {
    match resource {
        Some(r) => r,
        None => fresh,
    }
}

impl Bind {
    /// The resource asked for: the text of the `resource` child, if any.
    pub fn from_element(e: &XmlElement) -> (r: Bind)
        ensures
            r@ == match find_child(e@, qname(Some(ns::BIND@), "resource"@)) {
                Some(c) => Some(c.text),
                None => None,
            },
    {
        let resource = match e.find(Some(ns::BIND), "resource") {
            Some(c) => Some(c.text().to_owned()),
            None => None,
        };
        Bind { resource }
    }

    /// The answer: the JID `SOME@localhost/` followed by the resource asked for, or by a
    /// fresh random identifier when none was.
    pub fn to_element(&self) -> (r: XmlElement)
        ensures
            exists|fresh: Seq<char>| fresh.len() == 36 && r@ == #[trigger] spec_bind_answer(BOUND_PREFIX@ + spec_resource_or(self@, fresh)),
    {
        let resource = match &self.resource {
            Some(r) => r.clone(),
            None => crate::ids::new_v4_string(),
        };
        let mut jid = XmlElement::new(Some(ns::BIND), "jid");
        let text = concat(BOUND_PREFIX, resource.as_str());
        jid.set_text(text.as_str());
        let mut bind = XmlElement::new(Some(ns::BIND), "bind");
        bind.append_child(jid);
        proof {
            assert(bind@.children =~= seq![ElementView { text: BOUND_PREFIX@ + resource@, ..spec_empty_element(qname(Some(ns::BIND@), "jid"@)) }]);
            let fresh = if self@ is Some { Seq::new(36, |i: int| 'a') } else { resource@ };
            assert(fresh.len() == 36);
            assert(bind@ == spec_bind_answer(BOUND_PREFIX@ + spec_resource_or(self@, fresh)));
        }
        bind
    }

    pub fn copy(&self) -> (r: Bind)
        ensures
            r@ == self@,
    {
        Bind { resource: opt_copy(&self.resource) }
    }
}

impl Default for Bind {
    fn default() -> (r: Bind)
        ensures
            r@ is None,
    {
        Bind { resource: None }
    }
}

/// The kinds of stream errors.
#[derive(Clone, Copy, Debug, PartialEq, Eq, Structural)]
pub enum StreamErrorKind {
    BadNamespacePrefix,
    HostUnknown,
    InvalidNamespace,
    NotAuthorized,
    UnsupportedEncoding,
    UnsupportedVersion,
}

/// The name of the child that tells a stream error's kind.
pub open spec fn spec_error_condition(k: StreamErrorKind) -> Seq<char> {
    match k {
        StreamErrorKind::BadNamespacePrefix => "bad-namespace-prefix"@,
        StreamErrorKind::HostUnknown => "host-unknown"@,
        StreamErrorKind::InvalidNamespace => "invalid-namespace"@,
        StreamErrorKind::NotAuthorized => "not-authorized"@,
        StreamErrorKind::UnsupportedEncoding => "unsupported-encoding"@,
        StreamErrorKind::UnsupportedVersion => "unsupported-version"@,
    }
}

/// `<stream:error>` holding the condition, in the stream errors namespace.
pub open spec fn spec_stream_error_element(k: StreamErrorKind) -> ElementView {
    ElementView {
        children: seq![spec_empty_element(qname(Some(ns::STREAMS_ERRORS@), spec_error_condition(k)))],
        ..spec_empty_element(qname(Some(ns::STREAM@), "error"@))
    }
}

/// An error of the stream.
#[derive(Clone, Debug)]
pub struct StreamError {
    pub kind: StreamErrorKind,
}

impl StreamError {
    pub fn to_element(&self) -> (r: XmlElement)
        ensures
            r@ == spec_stream_error_element(self.kind),
    {
        let condition = match self.kind {
            StreamErrorKind::BadNamespacePrefix => "bad-namespace-prefix",
            StreamErrorKind::HostUnknown => "host-unknown",
            StreamErrorKind::InvalidNamespace => "invalid-namespace",
            StreamErrorKind::NotAuthorized => "not-authorized",
            StreamErrorKind::UnsupportedEncoding => "unsupported-encoding",
            StreamErrorKind::UnsupportedVersion => "unsupported-version",
        };
        let mut root = XmlElement::new(Some(ns::STREAM), "error");
        root.append_child(XmlElement::new(Some(ns::STREAMS_ERRORS), condition));
        proof {
            assert(root@.children =~= seq![spec_empty_element(qname(Some(ns::STREAMS_ERRORS@), spec_error_condition(self.kind)))]);
        }
        root
    }
}

/// The features a server offers.
#[derive(Debug)]
pub enum Features {
    StartTls,
    Bind,
    Mechanisms(Vec<String>),
    Unknown,
}

pub enum FeaturesView {
    StartTls,
    Bind,
    Mechanisms(Seq<Seq<char>>),
    Unknown,
}

impl View for Features {
    type V = FeaturesView;

    open spec fn view(&self) -> FeaturesView {
        match self {
            Features::StartTls => FeaturesView::StartTls,
            Features::Bind => FeaturesView::Bind,
            Features::Mechanisms(m) => FeaturesView::Mechanisms(m@.map_values(|s: String| s@)),
            Features::Unknown => FeaturesView::Unknown,
        }
    }
}

/// The feature a child's local name tells; the mechanisms are left empty.
pub open spec fn spec_feature_named(name: Seq<char>) -> FeaturesView {
    if name == "starttls"@ {
        FeaturesView::StartTls
    } else if name == "bind"@ {
        FeaturesView::Bind
    } else if name == "mechanisms"@ {
        FeaturesView::Mechanisms(Seq::empty())
    } else {
        FeaturesView::Unknown
    }
}

/// The texts of the children of an element, in order.
pub open spec fn spec_child_texts(e: ElementView) -> Seq<Seq<char>> {
    e.children.map_values(|c: ElementView| c.text)
}

/// What a child of the features tells: the feature its local name names, with the texts of
/// its children as the mechanisms.
pub open spec fn spec_feature_of(c: ElementView) -> FeaturesView {
    match spec_feature_named(c.tag.name) {
        FeaturesView::Mechanisms(_) => FeaturesView::Mechanisms(spec_child_texts(c)),
        f => f,
    }
}

/// The features an element offers: what its first child tells; unknown when it has none.
pub open spec fn spec_features_of(e: ElementView) -> FeaturesView {
    if e.children.len() > 0 {
        spec_feature_of(e.children[0])
    } else {
        FeaturesView::Unknown
    }
}

/// The element of a mechanism.
pub open spec fn spec_mechanism_element(m: Seq<char>) -> ElementView {
    ElementView { text: m, ..spec_empty_element(qname(Some(ns::SASL@), "mechanism"@)) }
}

/// The children of the features element.
pub open spec fn spec_features_children(f: FeaturesView) -> Seq<ElementView> {
    match f {
        FeaturesView::StartTls => seq![ElementView {
            children: seq![spec_empty_element(qname(Some(ns::TLS@), "required"@))],
            ..spec_empty_element(qname(Some(ns::TLS@), "starttls"@))
        }],
        FeaturesView::Bind => seq![spec_empty_element(qname(Some(ns::BIND@), "bind"@))],
        FeaturesView::Mechanisms(ms) => seq![ElementView {
            children: ms.map_values(|m: Seq<char>| spec_mechanism_element(m)),
            ..spec_empty_element(qname(Some(ns::SASL@), "mechanisms"@))
        }],
        FeaturesView::Unknown => Seq::empty(),
    }
}

/// `<stream:features>` holding the feature.
pub open spec fn spec_features_element(f: FeaturesView) -> ElementView {
    ElementView { children: spec_features_children(f), ..spec_empty_element(plain_name("stream:features"@)) }
}

impl Features {
    /// The feature a local name names; the mechanisms are left empty.
    pub fn from_name(e: &str) -> (r: Features)
        ensures
            r@ == spec_feature_named(e@),
    {
        if str_eq(e, "starttls") {
            Features::StartTls
        } else if str_eq(e, "bind") {
            Features::Bind
        } else if str_eq(e, "mechanisms") {
            let r = Features::Mechanisms(Vec::new());
            assert(r@ == FeaturesView::Mechanisms(Seq::empty())) by {
                if let Features::Mechanisms(v) = r {
                    assert(v@.map_values(|s: String| s@) =~= Seq::<Seq<char>>::empty());
                }
            }
            r
        } else {
            Features::Unknown
        }
    }

    pub fn copy(&self) -> (r: Features)
        ensures
            r@ == self@,
    {
        match self {
            Features::StartTls => Features::StartTls,
            Features::Bind => Features::Bind,
            Features::Mechanisms(m) => {
                let c = m.clone();
                proof {
                    assert(c@ == m@);
                }
                Features::Mechanisms(c)
            },
            Features::Unknown => Features::Unknown,
        }
    }
}

/// The texts of the children of an element.
fn child_texts(e: &XmlElement) -> (r: Vec<String>)
    ensures
        r@.map_values(|s: String| s@) == spec_child_texts(e@),
{
    let mut out: Vec<String> = Vec::new();
    let mut i: usize = 0;
    while i < e.children.len()
        invariant
            0 <= i <= e.children@.len(),
            e@.children.len() == e.children@.len(),
            out@.map_values(|s: String| s@) == spec_child_texts(e@).subrange(0, i as int),
        decreases e.children@.len() - i,
    {
        let ghost before = out@.map_values(|s: String| s@);
        assert(e@.children[i as int] == e.children@[i as int]@);
        let t = e.children[i].text().to_owned();
        assert(t@ == spec_child_texts(e@)[i as int]);
        out.push(t);
        proof {
            assert(out@.map_values(|s: String| s@) =~= before.push(t@));
            assert(spec_child_texts(e@).subrange(0, i + 1) =~= spec_child_texts(e@).subrange(0, i as int).push(
                spec_child_texts(e@)[i as int]));
        }
        i = i + 1;
    }
    assert(spec_child_texts(e@).subrange(0, i as int) =~= spec_child_texts(e@));
    out
}

/// The features a server offers.
#[derive(Debug)]
pub struct StreamFeatures {
    pub features: Features,
}

impl StreamFeatures {
    /// Reads the features out of their element: what the first child tells.
    pub fn from_element(e: &XmlElement) -> (r: StreamFeatures)
        ensures
            r.features@ == spec_features_of(e@),
    {
        if e.children.len() == 0 {
            return StreamFeatures { features: Features::Unknown };
        }
        let child = &e.children[0];
        assert(e@.children[0] == child@);
        let features = match Features::from_name(child.tag.name.as_str()) {
            Features::Mechanisms(_) => Features::Mechanisms(child_texts(child)),
            f => f,
        };
        StreamFeatures { features }
    }

    /// `<stream:features>` holding the feature.
    pub fn to_element(&self) -> (r: XmlElement)
        ensures
            r@ == spec_features_element(self.features@),
    {
        let mut root = XmlElement::new(None, "stream:features");
        match &self.features {
            Features::StartTls => {
                let mut starttls = XmlElement::new(Some(ns::TLS), "starttls");
                starttls.append_child(XmlElement::new(Some(ns::TLS), "required"));
                root.append_child(starttls);
                proof {
                    assert(root@.children =~= spec_features_children(self.features@));
                }
            },
            Features::Bind => {
                root.append_child(XmlElement::new(Some(ns::BIND), "bind"));
                proof {
                    assert(root@.children =~= spec_features_children(self.features@));
                }
            },
            Features::Mechanisms(mechanisms) => {
                let ghost ms = mechanisms@.map_values(|s: String| s@);
                let mut node = XmlElement::new(Some(ns::SASL), "mechanisms");
                let mut i: usize = 0;
                assert(ms.subrange(0, 0).map_values(|m: Seq<char>| spec_mechanism_element(m)) =~= Seq::<ElementView>::empty());
                while i < mechanisms.len()
                    invariant
                        0 <= i <= mechanisms@.len(),
                        ms == mechanisms@.map_values(|s: String| s@),
                        node@ == (ElementView {
                            children: ms.subrange(0, i as int).map_values(|m: Seq<char>| spec_mechanism_element(m)),
                            ..spec_empty_element(qname(Some(ns::SASL@), "mechanisms"@))
                        }),
                    decreases mechanisms@.len() - i,
                {
                    let mut m = XmlElement::new(Some(ns::SASL), "mechanism");
                    m.set_text(mechanisms[i].as_str());
                    node.append_child(m);
                    proof {
                        assert(ms.subrange(0, i + 1).map_values(|m: Seq<char>| spec_mechanism_element(m)) =~=
                            ms.subrange(0, i as int).map_values(|m: Seq<char>| spec_mechanism_element(m)).push(
                            spec_mechanism_element(ms[i as int])));
                    }
                    i = i + 1;
                }
                proof {
                    assert(ms.subrange(0, i as int) =~= ms);
                }
                root.append_child(node);
                proof {
                    assert(root@.children =~= spec_features_children(self.features@));
                }
            },
            Features::Unknown => {},
        }
        root
    }

    pub fn copy(&self) -> (r: StreamFeatures)
        ensures
            r.features@ == self.features@,
    {
        StreamFeatures { features: self.features.copy() }
    }
}

impl Default for StreamFeatures {
    fn default() -> (r: StreamFeatures)
        ensures
            r.features@ == FeaturesView::Unknown,
    {
        StreamFeatures { features: Features::Unknown }
    }
}

/// Reading back the element of a feature gives the feature again.
pub proof fn lemma_features_roundtrip(f: FeaturesView)
    ensures
        spec_features_of(spec_features_element(f)) == f,
{
    reveal_strlit("starttls");
    reveal_strlit("bind");
    reveal_strlit("mechanisms");
    match f {
        FeaturesView::Mechanisms(ms) => {
            let e = spec_features_element(f);
            let c = e.children[0];
            assert(c.tag.name == "mechanisms"@);
            assert("mechanisms"@ != "starttls"@);
            assert("mechanisms"@ != "bind"@);
            assert(spec_feature_named(c.tag.name) == FeaturesView::Mechanisms(Seq::empty()));
            assert(spec_child_texts(c) =~= ms);
            assert(spec_feature_of(c) == FeaturesView::Mechanisms(ms));
        },
        FeaturesView::Bind => {
            assert("bind"@[0] != "starttls"@[0]);
        },
        _ => {},
    }
}

/// A stream header of a packet.
#[derive(Clone, Debug)]
pub struct OpenStream {
    /// An Id generated by the server: the text of a UUID.
    pub id: String,
    /// The 'xml:lang' attribute specifies an entity's preferred or default language.
    pub lang: String,
    /// The version of the stream protocol.
    pub version: String,
    pub to: Option<String>,
    pub from: Option<String>,
}

/// The attribute `xml:lang`.
pub open spec fn lang_name() -> QualNameView {
    qname(Some(ns::XML_URI@), "lang"@)
}

/// What the attributes of a stream header give: the last `to`, `xml:lang` and `version`
/// attributes, by default the empty text, `en` and `0.0`.
pub open spec fn spec_header_fields(attrs: Seq<XmlAttribute>) -> (Seq<char>, Seq<char>, Seq<char>)
    decreases attrs.len(),
{
    if attrs.len() == 0 {
        (Seq::empty(), "en"@, "0.0"@)
    } else {
        let (to, lang, version) = spec_header_fields(attrs.drop_last());
        let a = attrs.last();
        let n = name_view(a.name);
        if n == plain_name("to"@) {
            (a.value@, lang, version)
        } else if n == lang_name() {
            (to, a.value@, version)
        } else if n == plain_name("version"@) {
            (to, lang, a.value@)
        } else {
            (to, lang, version)
        }
    }
}

/// The element of a stream header: created as `{jabber:client}stream` with the `stream`
/// prefix for the streams namespace, renamed `{streams}stream`, with `version`, `xml:lang`,
/// `id`, then `from` and `to` when present.
pub open spec fn spec_header_element(id: Seq<char>, lang: Seq<char>, version: Seq<char>, to: Option<Seq<char>>,
    from: Option<Seq<char>>) -> ElementView {
    let a1 = attrs_set(Seq::empty(), plain_name("version"@), version);
    let a2 = attrs_set(a1, lang_name(), lang);
    let a3 = attrs_set(a2, plain_name("id"@), id);
    let a4 = match from {
        Some(f) => attrs_set(a3, plain_name("from"@), f),
        None => a3,
    };
    let a5 = match to {
        Some(t) => attrs_set(a4, plain_name("to"@), t),
        None => a4,
    };
    ElementView {
        tag: qname(Some(ns::STREAM@), "stream"@),
        origin: Some(qname(Some(ns::CLIENT@), "stream"@)),
        attrs: a5,
        prefixes: seq![NsPrefixView { url: ns::STREAM@, prefix: "stream"@ }],
        ..spec_empty_element(qname(Some(ns::CLIENT@), "stream"@))
    }
}

impl OpenStream {
    /// Reads a stream header out of the attributes of its opening tag; its id is fresh.
    pub fn from_start_element(attributes: &Vec<XmlAttribute>) -> (r: OpenStream)
        ensures
            (r.to, r.from) matches (Some(t), None) && (t@, r.lang@, r.version@) == spec_header_fields(attributes@),
            r.id@.len() == 36,
    {
        let mut to = String::new();
        let mut lang = "en".to_owned();
        let mut version = "0.0".to_owned();
        let mut i: usize = 0;
        while i < attributes.len()
            invariant
                0 <= i <= attributes@.len(),
                (to@, lang@, version@) == spec_header_fields(attributes@.subrange(0, i as int)),
            decreases attributes@.len() - i,
        {
            let a = &attributes[i];
            proof {
                assert(attributes@.subrange(0, i + 1).drop_last() =~= attributes@.subrange(0, i as int));
            }
            let plain = a.name.namespace.is_none();
            let xml_ns = match &a.name.namespace {
                Some(u) => str_eq(u.as_str(), ns::XML_URI),
                None => false,
            };
            let local = a.name.local_name.as_str();
            if plain && str_eq(local, "to") {
                to = a.value.clone();
            } else if xml_ns && str_eq(local, "lang") {
                lang = a.value.clone();
            } else if plain && str_eq(local, "version") {
                version = a.value.clone();
            }
            i = i + 1;
        }
        assert(attributes@.subrange(0, attributes@.len() as int) =~= attributes@);
        OpenStream { id: crate::ids::new_v4_string(), lang, version, to: Some(to), from: None }
    }

    /// The element of this header.
    pub fn to_element(&self) -> (r: XmlElement)
        ensures
            r@ == spec_header_element(self.id@, self.lang@, self.version@, opt_view(self.to), opt_view(self.from)),
    {
        let mut element = XmlElement::new(Some(ns::CLIENT), "stream");
        element.set_namespace_prefix(ns::STREAM, "stream");
        element.set_tag(Some(ns::STREAM), "stream");
        element.set_attr("version", self.version.as_str());
        element.set_attr_ns(Some(ns::XML_URI), "lang", self.lang.as_str());
        element.set_attr("id", self.id.as_str());
        match &self.from {
            Some(f) => element.set_attr("from", f.as_str()),
            None => {},
        }
        match &self.to {
            Some(t) => element.set_attr("to", t.as_str()),
            None => {},
        }
        proof {
            assert(element@.prefixes =~= seq![NsPrefixView { url: ns::STREAM@, prefix: "stream"@ }]);
        }
        element
    }

    /// The text of this header: its element written without an end tag, the stream staying open.
    pub fn to_text(&self) -> (r: String)
        ensures
            r@ == spec_strip_self_closing(xml_text(spec_header_element(self.id@, self.lang@, self.version@,
                opt_view(self.to), opt_view(self.from)))),
    {
        strip_self_closing(write_xml(&self.to_element()))
    }

    pub fn copy(&self) -> (r: OpenStream)
        ensures
            r.id@ == self.id@ && r.lang@ == self.lang@ && r.version@ == self.version@,
            opt_view(r.to) == opt_view(self.to) && opt_view(r.from) == opt_view(self.from),
    {
        OpenStream {
            id: self.id.clone(),
            lang: self.lang.clone(),
            version: self.version.clone(),
            to: opt_copy(&self.to),
            from: opt_copy(&self.from),
        }
    }
}

/// The text of the nil UUID, the id of a default header.
pub const NIL_ID: &'static str = "00000000-0000-0000-0000-000000000000";

impl Default for OpenStream {
    fn default() -> (r: OpenStream)
        ensures
            r.id@ == NIL_ID@ && r.lang@ == Seq::<char>::empty() && r.version@ == Seq::<char>::empty(),
            r.to is None && r.from is None,
    {
        OpenStream { id: NIL_ID.to_owned(), lang: String::new(), version: String::new(), to: None, from: None }
    }
}

/// Define a sub part of a Packet, a NonStanza is the representation of an XML Stream event.
/// It's used by the system to deal with the communication between entities over a network.
#[derive(Debug)]
pub enum NonStanza {
    OpenStream(OpenStream),
    ProceedTls(ProceedTls),
    StartTls(StartTls),
    SASLSuccess(SASLSuccess),
    StreamFeatures(StreamFeatures),
    Auth(Auth),
    Bind(Bind),
    StreamError(StreamError),
    CloseStream(CloseStream),
}

/// The mathematical value of a stream packet.
pub enum NonStanzaView {
    OpenStream(Seq<char>, Seq<char>, Seq<char>, Option<Seq<char>>, Option<Seq<char>>),
    ProceedTls(ExchangeView),
    StartTls,
    SASLSuccess,
    StreamFeatures(FeaturesView),
    Auth(ExchangeView),
    Bind(Option<Seq<char>>),
    StreamError(StreamErrorKind),
    CloseStream,
}

impl View for NonStanza {
    type V = NonStanzaView;

    open spec fn view(&self) -> NonStanzaView {
        match self {
            NonStanza::OpenStream(s) => NonStanzaView::OpenStream(s.id@, s.lang@, s.version@, opt_view(s.to), opt_view(s.from)),
            NonStanza::ProceedTls(s) => NonStanzaView::ProceedTls(s@),
            NonStanza::StartTls(_) => NonStanzaView::StartTls,
            NonStanza::SASLSuccess(_) => NonStanzaView::SASLSuccess,
            NonStanza::StreamFeatures(s) => NonStanzaView::StreamFeatures(s.features@),
            NonStanza::Auth(s) => NonStanzaView::Auth(s@),
            NonStanza::Bind(s) => NonStanzaView::Bind(s@),
            NonStanza::StreamError(s) => NonStanzaView::StreamError(s.kind),
            NonStanza::CloseStream(_) => NonStanzaView::CloseStream,
        }
    }
}

/// Why a packet has no element to send.
#[derive(Clone, Copy, Debug, PartialEq, Eq, Structural)]
pub enum SendError {
    /// The packet is one a client sends, never answered back.
    NotSentBack,
}

/// The element of a stream packet, `fresh` being the identifier a bind answer takes when no
/// resource was asked for; what a client sends (authentication, TLS request) is not sent back.
pub open spec fn spec_non_stanza_element(n: NonStanza, fresh: Seq<char>) -> Result<ElementView, SendError> {
    match n {
        NonStanza::Auth(_) => Err(SendError::NotSentBack),
        NonStanza::StartTls(_) => Err(SendError::NotSentBack),
        NonStanza::Bind(b) => Ok(spec_bind_answer(BOUND_PREFIX@ + spec_resource_or(b@, fresh))),
        NonStanza::OpenStream(s) => Ok(spec_header_element(s.id@, s.lang@, s.version@, opt_view(s.to), opt_view(s.from))),
        NonStanza::ProceedTls(_) => Ok(spec_empty_element(qname(Some(ns::TLS@), "proceed"@))),
        NonStanza::SASLSuccess(_) => Ok(spec_empty_element(qname(Some(ns::SASL@), "success"@))),
        NonStanza::StreamFeatures(s) => Ok(spec_features_element(s.features@)),
        NonStanza::StreamError(s) => Ok(spec_stream_error_element(s.kind)),
        NonStanza::CloseStream(_) => Ok(spec_empty_element(qname(Some(ns::STREAM@), "stream"@))),
    }
}

impl NonStanza {
    /// The element to send for a stream packet; what a client sends (authentication, TLS
    /// request) is refused.
    pub fn to_element(&self) -> (r: Result<XmlElement, SendError>)
        ensures
            exists|fresh: Seq<char>| #![trigger spec_non_stanza_element(*self, fresh)] match (r, spec_non_stanza_element(*self, fresh)) {
                (Ok(e), Ok(v)) => e@ == v,
                (Err(x), Err(y)) => x == y,
                _ => false,
            },
    {
        let r = match self {
            NonStanza::Auth(_) => Err(SendError::NotSentBack),
            NonStanza::Bind(s) => {
                let e = s.to_element();
                proof {
                    let fresh = choose|fresh: Seq<char>| e@ == #[trigger] spec_bind_answer(BOUND_PREFIX@ + spec_resource_or(s@, fresh));
                    assert(spec_non_stanza_element(*self, fresh) == Ok::<ElementView, SendError>(e@));
                }
                return Ok(e);
            },
            NonStanza::OpenStream(s) => Ok(s.to_element()),
            NonStanza::ProceedTls(s) => Ok(s.to_element()),
            NonStanza::SASLSuccess(s) => Ok(s.to_element()),
            NonStanza::StartTls(_) => Err(SendError::NotSentBack),
            NonStanza::StreamFeatures(s) => Ok(s.to_element()),
            NonStanza::StreamError(s) => Ok(s.to_element()),
            NonStanza::CloseStream(s) => Ok(s.to_element()),
        };
        proof {
            // outside a bind answer, the fresh identifier plays no part
            assert(match (r, spec_non_stanza_element(*self, Seq::empty())) {
                (Ok(e), Ok(v)) => e@ == v,
                (Err(x), Err(y)) => x == y,
                _ => false,
            });
        }
        r
    }
}

} // verus!
