//! The features a server offers on a stream.
use vstd::prelude::*;
use crate::config::XMPPConfig;
use crate::element::{XmlElement, ElementView, qname, plain_name, find_child, find_all_children, spec_empty_element,
    lemma_find_first_child, lemma_find_second_child, lemma_find_no_child, lemma_find_all_of_one_tag};
use crate::ns;
use crate::xml::{write_xml, xml_text};
use crate::events::kinds::EventError;
use crate::events::generic::{opt_elem_view, opt_elem_copy};
use crate::events::interface::{Event, NonStanzaEvent, EventView, NonStanzaEventView};

verus! {

/// Define possible features found in a stream:features
pub enum Features {
    StartTlsInit,
    Bind,
    Mechanims(Vec<String>),
    Unknown,
}

pub enum FeaturesView {
    StartTlsInit,
    Bind,
    Mechanims(Seq<Seq<char>>),
    Unknown,
}

impl View for Features {
    type V = FeaturesView;

    open spec fn view(&self) -> FeaturesView {
        match self {
            Features::StartTlsInit => FeaturesView::StartTlsInit,
            Features::Bind => FeaturesView::Bind,
            Features::Mechanims(v) => FeaturesView::Mechanims(v@.map_values(|s: String| s@)),
            Features::Unknown => FeaturesView::Unknown,
        }
    }
}

impl Features {
    pub fn copy(&self) -> (r: Features)
        ensures
            r@ == self@,
    {
        match self {
            Features::StartTlsInit => Features::StartTlsInit,
            Features::Bind => Features::Bind,
            Features::Mechanims(v) => {
                let mut out: Vec<String> = Vec::new();
                let mut i: usize = 0;
                while i < v.len()
                    invariant
                        0 <= i <= v@.len(),
                        out@.len() == i,
                        forall|j: int| 0 <= j < i ==> out@[j]@ == v@[j]@,
                    decreases v@.len() - i,
                {
                    out.push(v[i].clone());
                    i = i + 1;
                }
                assert(out@.map_values(|s: String| s@) =~= v@.map_values(|s: String| s@));
                Features::Mechanims(out)
            },
            Features::Unknown => Features::Unknown,
        }
    }

    pub fn is_start_tls_init(&self) -> (r: bool)
        ensures
            r == (self@ is StartTlsInit),
    {
        match self {
            Features::StartTlsInit => true,
            _ => false,
        }
    }

    pub fn is_bind(&self) -> (r: bool)
        ensures
            r == (self@ is Bind),
    {
        match self {
            Features::Bind => true,
            _ => false,
        }
    }

    pub fn is_unknown(&self) -> (r: bool)
        ensures
            r == (self@ is Unknown),
    {
        match self {
            Features::Unknown => true,
            _ => false,
        }
    }

    /// Equality of two feature sets.
    pub fn same_as(&self, other: &Features) -> (r: bool)
        ensures
            r == (self@ == other@),
    {
        match self {
            Features::StartTlsInit => other.is_start_tls_init(),
            Features::Bind => other.is_bind(),
            Features::Unknown => other.is_unknown(),
            Features::Mechanims(a) => match other {
                Features::Mechanims(b) => {
                    let ghost va = a@.map_values(|s: String| s@);
                    let ghost vb = b@.map_values(|s: String| s@);
                    assert(self@ == FeaturesView::Mechanims(va));
                    assert(other@ == FeaturesView::Mechanims(vb));
                    if a.len() != b.len() {
                        assert(va.len() != vb.len());
                        return false;
                    }
                    let mut i: usize = 0;
                    while i < a.len()
                        invariant
                            0 <= i <= a@.len(),
                            a@.len() == b@.len(),
                            va == a@.map_values(|s: String| s@),
                            vb == b@.map_values(|s: String| s@),
                            self@ == FeaturesView::Mechanims(va),
                            other@ == FeaturesView::Mechanims(vb),
                            forall|j: int| 0 <= j < i ==> a@[j]@ == b@[j]@,
                        decreases a@.len() - i,
                    {
                        if a[i] != b[i] {
                            assert(va[i as int] != vb[i as int]);
                            return false;
                        }
                        i = i + 1;
                    }
                    assert(va =~= vb);
                    true
                },
                _ => false,
            },
        }
    }
}

pub struct StreamFeatures {
    config: XMPPConfig,
    features: Features,
    session: Option<XmlElement>,
}

pub struct StreamFeaturesView {
    pub features: FeaturesView,
    pub session: Option<ElementView>,
}

impl View for StreamFeatures {
    type V = StreamFeaturesView;

    closed spec fn view(&self) -> StreamFeaturesView {
        StreamFeaturesView { features: self.features@, session: opt_elem_view(self.session) }
    }
}

pub open spec fn bind_name() -> crate::element::QualNameView {
    qname(Some(ns::BIND@), "bind"@)
}

pub open spec fn session_name() -> crate::element::QualNameView {
    qname(Some(ns::SESSION@), "session"@)
}

pub open spec fn starttls_name() -> crate::element::QualNameView {
    qname(Some(ns::TLS@), "starttls"@)
}

pub open spec fn required_name() -> crate::element::QualNameView {
    qname(Some(ns::TLS@), "required"@)
}

pub open spec fn mechanisms_name() -> crate::element::QualNameView {
    qname(Some(ns::SASL@), "mechanisms"@)
}

pub open spec fn mechanism_name() -> crate::element::QualNameView {
    qname(Some(ns::SASL@), "mechanism"@)
}

/// What `StreamFeatures::from_element` reads out of a `stream:features` element. The checks
/// come in this order, each later one overriding an earlier one: a `bind` child gives `Bind`
/// and keeps a `session` child; a `starttls` child with a `required` child gives
/// `StartTlsInit`; a `mechanisms` child gives the texts of its `mechanism` children.
pub open spec fn spec_features_from_element(e: ElementView) -> StreamFeaturesView {
    let with_bind = find_child(e, bind_name()) is Some;
    let f1 = if with_bind { FeaturesView::Bind } else { FeaturesView::Unknown };
    let session = if with_bind { find_child(e, session_name()) } else { None };
    let f2 = match find_child(e, starttls_name()) {
        Some(st) => if find_child(st, required_name()) is Some { FeaturesView::StartTlsInit } else { f1 },
        None => f1,
    };
    let f3 = match find_child(e, mechanisms_name()) {
        Some(m) => FeaturesView::Mechanims(
            find_all_children(m, mechanism_name()).map_values(|c: ElementView| c.text),
        ),
        None => f2,
    };
    StreamFeaturesView { features: f3, session: session }
}

/// The `mechanism` element holding a mechanism name.
pub open spec fn spec_mechanism_element(m: Seq<char>) -> ElementView {
    ElementView { text: m, ..spec_empty_element(mechanism_name()) }
}

/// The element of a feature set: `<stream:features>` with a `bind` child (and the session
/// element, when kept), a `starttls` child holding `required`, or a `mechanisms` child
/// holding one `mechanism` per name.
pub open spec fn spec_features_element(v: StreamFeaturesView) -> ElementView {
    let root = spec_empty_element(plain_name("stream:features"@));
    match v.features {
        FeaturesView::Bind => ElementView {
            children: match v.session {
                Some(s) => seq![spec_empty_element(bind_name()), s],
                None => seq![spec_empty_element(bind_name())],
            },
            ..root
        },
        FeaturesView::StartTlsInit => ElementView {
            children: seq![
                ElementView { children: seq![spec_empty_element(required_name())], ..spec_empty_element(starttls_name()) },
            ],
            ..root
        },
        FeaturesView::Mechanims(ms) => ElementView {
            children: seq![
                ElementView {
                    children: ms.map_values(|m: Seq<char>| spec_mechanism_element(m)),
                    ..spec_empty_element(mechanisms_name())
                },
            ],
            ..root
        },
        FeaturesView::Unknown => root,
    }
}

/// The feature sets a features element can give: a session element only beside `Bind`,
/// and only when it is a `session` element.
pub open spec fn features_readable(v: StreamFeaturesView) -> bool {
    v.session matches Some(s) ==> v.features is Bind && s.tag == session_name()
}

/// Reading back the element of a feature set gives the feature set again.
pub proof fn lemma_features_element_roundtrip(v: StreamFeaturesView)
    requires
        features_readable(v),
    ensures
        spec_features_from_element(spec_features_element(v)) == v,
{
    reveal_strlit("bind");
    reveal_strlit("session");
    reveal_strlit("starttls");
    reveal_strlit("required");
    reveal_strlit("mechanisms");
    reveal_strlit("mechanism");
    assert("bind"@[0] != "session"@[0] && "bind"@[0] != "starttls"@[0] && "bind"@[0] != "mechanisms"@[0]);
    assert("session"@[1] != "starttls"@[1] && "session"@[0] != "mechanisms"@[0]);
    assert("starttls"@[0] != "mechanisms"@[0]);
    let e = spec_features_element(v);
    match v.features {
        FeaturesView::Bind => {
            lemma_find_first_child(e, bind_name());
            match v.session {
                Some(s) => {
                    lemma_find_second_child(e, session_name());
                    assert(forall|i: int| 0 <= i < e.children.len() ==> e.children[i].tag != starttls_name());
                    lemma_find_no_child(e, starttls_name());
                    assert(forall|i: int| 0 <= i < e.children.len() ==> e.children[i].tag != mechanisms_name());
                    lemma_find_no_child(e, mechanisms_name());
                },
                None => {
                    lemma_find_no_child(e, session_name());
                    lemma_find_no_child(e, starttls_name());
                    lemma_find_no_child(e, mechanisms_name());
                },
            }
        },
        FeaturesView::StartTlsInit => {
            lemma_find_no_child(e, bind_name());
            lemma_find_first_child(e, starttls_name());
            lemma_find_first_child(e.children[0], required_name());
            lemma_find_no_child(e, mechanisms_name());
        },
        FeaturesView::Mechanims(ms) => {
            lemma_find_no_child(e, bind_name());
            lemma_find_no_child(e, starttls_name());
            lemma_find_first_child(e, mechanisms_name());
            let m = e.children[0];
            lemma_find_all_of_one_tag(m, mechanism_name());
            assert(m.children.map_values(|c: ElementView| c.text) =~= ms);
        },
        FeaturesView::Unknown => {
            lemma_find_no_child(e, bind_name());
            lemma_find_no_child(e, starttls_name());
            lemma_find_no_child(e, mechanisms_name());
        },
    }
}

impl StreamFeatures {
    pub fn new(config: &XMPPConfig) -> (r: StreamFeatures)
        ensures
            r@ == (StreamFeaturesView { features: FeaturesView::Unknown, session: None }),
    {
        StreamFeatures { config: config.copy(), features: Features::Unknown, session: None }
    }

    pub fn get_features(&self) -> (r: Features)
        ensures
            r@ == self@.features,
    {
        self.features.copy()
    }

    /// Reads the features out of a `stream:features` element.
    pub fn from_element(e: &XmlElement) -> (r: StreamFeatures)
        ensures
            r@ == spec_features_from_element(e@),
    {
        let mut features = Features::Unknown;
        let mut session: Option<XmlElement> = None;
        if e.find(Some(ns::BIND), "bind").is_some() {
            features = Features::Bind;
            match e.find(Some(ns::SESSION), "session") {
                Some(sess) => {
                    session = Some(sess.copy());
                },
                None => {},
            }
        }
        match e.find(Some(ns::TLS), "starttls") {
            Some(starttls) => {
                if starttls.find(Some(ns::TLS), "required").is_some() {
                    features = Features::StartTlsInit;
                }
            },
            None => {},
        }
        match e.find(Some(ns::SASL), "mechanisms") {
            Some(mechanisms) => {
                let children = mechanisms.find_all(Some(ns::SASL), "mechanism");
                let mut list: Vec<String> = Vec::new();
                let mut i: usize = 0;
                while i < children.len()
                    invariant
                        0 <= i <= children@.len(),
                        list@.len() == i,
                        forall|j: int| 0 <= j < i ==> list@[j]@ == children@[j]@.text,
                    decreases children@.len() - i,
                {
                    list.push(children[i].text.clone());
                    i = i + 1;
                }
                proof {
                    let all = find_all_children(mechanisms@, mechanism_name());
                    assert(children@.map_values(|c: XmlElement| c@) == all);
                    assert forall|j: int| 0 <= j < list@.len() implies list@[j]@ == all[j].text by {
                        assert(all[j] == children@.map_values(|c: XmlElement| c@)[j]);
                    }
                    assert(list@.map_values(|s: String| s@) =~= all.map_values(|c: ElementView| c.text));
                }
                features = Features::Mechanims(list);
            },
            None => {},
        }
        StreamFeatures { config: XMPPConfig::new(), features, session }
    }

    /// Reads features out of a text; the text is not read and nothing is offered.
    pub fn from_str(s: &str) -> (r: Result<StreamFeatures, EventError>)
        ensures
            r matches Ok(f) && f@ == (StreamFeaturesView { features: FeaturesView::Unknown, session: None }),
    {
        Ok(StreamFeatures { config: XMPPConfig::new(), features: Features::Unknown, session: None })
    }

    /// The element of this feature set.
    pub fn to_element(&self) -> (r: XmlElement)
        ensures
            r@ == spec_features_element(self@),
    {
        let mut root = XmlElement::new(None, "stream:features");
        match &self.features {
            Features::Bind => {
                root.append_child(XmlElement::new(Some(ns::BIND), "bind"));
                match &self.session {
                    Some(session) => root.append_child(session.copy()),
                    None => {},
                }
            },
            Features::StartTlsInit => {
                let mut starttls = XmlElement::new(Some(ns::TLS), "starttls");
                starttls.append_child(XmlElement::new(Some(ns::TLS), "required"));
                root.append_child(starttls);
            },
            Features::Mechanims(list) => {
                let mut mechs = XmlElement::new(Some(ns::SASL), "mechanisms");
                let ghost empty = mechs@;
                assert(mechs@.children =~= list@.map_values(|s: String| s@).take(0).map_values(
                    |m: Seq<char>| spec_mechanism_element(m),
                ));
                let mut i: usize = 0;
                while i < list.len()
                    invariant
                        0 <= i <= list@.len(),
                        mechs@ == (ElementView {
                            children: list@.map_values(|s: String| s@).take(i as int).map_values(
                                |m: Seq<char>| spec_mechanism_element(m),
                            ),
                            ..empty
                        }),
                        empty == spec_empty_element(mechanisms_name()),
                    decreases list@.len() - i,
                {
                    let mut m = XmlElement::new(Some(ns::SASL), "mechanism");
                    m.set_text(list[i].as_str());
                    mechs.append_child(m);
                    assert(list@.map_values(|s: String| s@).take(i + 1).map_values(
                        |m: Seq<char>| spec_mechanism_element(m),
                    ) =~= list@.map_values(|s: String| s@).take(i as int).map_values(
                        |m: Seq<char>| spec_mechanism_element(m),
                    ).push(spec_mechanism_element(list@[i as int]@)));
                    i = i + 1;
                }
                assert(list@.map_values(|s: String| s@).take(list@.len() as int) =~= list@.map_values(
                    |s: String| s@,
                ));
                root.append_child(mechs);
            },
            Features::Unknown => {},
        }
        proof {
            assert(root@.children =~= spec_features_element(self@).children);
        }
        root
    }

    /// The text of this feature set.
    pub fn to_string(&self) -> (r: String)
        ensures
            r@ == xml_text(spec_features_element(self@)),
    {
        write_xml(&self.to_element())
    }

    pub fn copy(&self) -> (r: StreamFeatures)
        ensures
            r@ == self@,
    {
        StreamFeatures { config: self.config.copy(), features: self.features.copy(), session: opt_elem_copy(&self.session) }
    }

    pub fn to_event(&self) -> (r: Event)
        ensures
            r@ == EventView::NonStanza(NonStanzaEventView::StreamFeatures(self@), Seq::empty()),
    {
        Event::NonStanza(Box::new(NonStanzaEvent::StreamFeaturesEvent(Box::new(self.copy()))), String::new())
    }
}

} // verus!
