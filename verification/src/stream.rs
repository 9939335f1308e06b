//! Reading an XML stream piece by piece with the `xml-rs` pull parser, and building the
//! elements it carries.
use vstd::prelude::*;
use crate::element::{XmlElement, ElementView, AttrView, attrs_set, qname, spec_empty_element};
use crate::events::generic::opt_elem_view;
use crate::jid::opt_view;
use crate::text::str_eq;

verus! {

/// The `xml-rs` pull parser over the `circular::Buffer` it reads from. Verus refuses to
/// declare `xml::reader::EventReader` itself (its parameter is bound by `std::io::Read`), so
/// the reader is held here, out of Verus's sight, and only the functions below touch it.
#[verifier::external_body]
pub struct StreamReader {
    inner: xml::reader::EventReader<circular::Buffer>,
}

#[verifier::external_type_specification]
#[verifier::external_body]
pub struct ExOwnedName(xml::name::OwnedName);

#[verifier::external_type_specification]
#[verifier::external_body]
pub struct ExOwnedAttribute(xml::attribute::OwnedAttribute);

/// A name read from the stream: its namespace, if any, and its local part.
#[derive(Clone, Debug)]
pub struct XmlName {
    pub namespace: Option<String>,
    pub local_name: String,
}

/// An attribute read from the stream.
#[derive(Clone, Debug)]
pub struct XmlAttribute {
    pub name: XmlName,
    pub value: String,
}

/// One step of the pull parser.
#[derive(Clone, Debug)]
pub enum XmlStep {
    /// The XML declaration.
    StartDocument,
    /// A processing instruction.
    Instruction,
    /// An opening tag, with its attributes.
    StartElement(XmlName, Vec<XmlAttribute>),
    /// A closing tag.
    EndElement(XmlName),
    /// Text between tags.
    Characters(String),
    /// Anything else the parser reports: the end of the document, a comment, a CDATA section.
    Other,
    /// A syntax error, with the parser's message.
    SyntaxError(String),
    /// Another error: input, encoding, or the end of the input inside an element.
    Failure,
}

pub struct XmlNameView {
    pub namespace: Option<Seq<char>>,
    pub local_name: Seq<char>,
}

pub struct XmlAttributeView {
    pub name: XmlNameView,
    pub value: Seq<char>,
}

pub enum XmlStepView {
    StartDocument,
    Instruction,
    StartElement(XmlNameView, Seq<XmlAttributeView>),
    EndElement(XmlNameView),
    Characters(Seq<char>),
    Other,
    SyntaxError(Seq<char>),
    Failure,
}

impl View for XmlName {
    type V = XmlNameView;

    open spec fn view(&self) -> XmlNameView {
        XmlNameView { namespace: opt_view(self.namespace), local_name: self.local_name@ }
    }
}

impl View for XmlAttribute {
    type V = XmlAttributeView;

    open spec fn view(&self) -> XmlAttributeView {
        XmlAttributeView { name: self.name@, value: self.value@ }
    }
}

/// The values of attributes read from the stream.
pub open spec fn attrs_view(attrs: Seq<XmlAttribute>) -> Seq<XmlAttributeView> {
    attrs.map_values(|a: XmlAttribute| a@)
}

impl View for XmlStep {
    type V = XmlStepView;

    open spec fn view(&self) -> XmlStepView {
        match self {
            XmlStep::StartDocument => XmlStepView::StartDocument,
            XmlStep::Instruction => XmlStepView::Instruction,
            XmlStep::StartElement(n, attrs) => XmlStepView::StartElement(n@, attrs_view(attrs@)),
            XmlStep::EndElement(n) => XmlStepView::EndElement(n@),
            XmlStep::Characters(s) => XmlStepView::Characters(s@),
            XmlStep::Other => XmlStepView::Other,
            XmlStep::SyntaxError(m) => XmlStepView::SyntaxError(m@),
            XmlStep::Failure => XmlStepView::Failure,
        }
    }
}

/// The qualified name of the value of a name read from the stream.
pub open spec fn qname_of(n: XmlNameView) -> crate::element::QualNameView {
    qname(n.namespace, n.local_name)
}

/// The qualified name of a name read from the stream.
pub open spec fn name_view(n: XmlName) -> crate::element::QualNameView {
    qname_of(n@)
}

/// The attributes of an element, set one after the other.
pub open spec fn spec_attrs_of(attrs: Seq<XmlAttributeView>) -> Seq<AttrView>
    decreases attrs.len(),
{
    if attrs.len() == 0 {
        Seq::empty()
    } else {
        attrs_set(spec_attrs_of(attrs.drop_last()), qname_of(attrs.last().name), attrs.last().value)
    }
}

/// The element an opening tag starts, before its content.
pub open spec fn spec_started_element(name: XmlNameView, attrs: Seq<XmlAttributeView>) -> ElementView {
    ElementView { attrs: spec_attrs_of(attrs), ..spec_empty_element(qname_of(name)) }
}

/// The bytes a reader reads from.
pub uninterp spec fn reader_input(r: StreamReader) -> Seq<u8>;

/// The number of steps a reader has taken.
pub uninterp spec fn reader_taken(r: StreamReader) -> nat;

/// The `k`-th step (from 0) that `xml::reader::EventReader::next` gives on a reader made by
/// `stream_reader_over` over `bytes`.
pub uninterp spec fn xml_step_at(bytes: Seq<u8>, k: nat) -> XmlStepView;

/// What `circular::Buffer::available_data` gives, on a reader made by `stream_reader_over`
/// over `bytes`, after `k` steps: the number of bytes not read yet.
pub uninterp spec fn xml_available_at(bytes: Seq<u8>, k: nat) -> nat;

/// A reader over the given bytes (`circular::Buffer::from_slice`), made with
/// `xml::reader::ParserConfig::create_reader`: text is reported as characters, and the end of
/// the input is not taken for the end of the document. The contract claims that it reads from
/// these bytes and has taken no step yet.
#[verifier::external_body]
pub fn stream_reader_over(bytes: &[u8]) -> (r: StreamReader)
    ensures
        reader_input(r) == bytes@,
        reader_taken(r) == 0,
{
    let mut config = xml::reader::ParserConfig::new().whitespace_to_characters(true);
    config.ignore_end_of_stream = true;
    StreamReader { inner: config.create_reader(circular::Buffer::from_slice(bytes)) }
}

/// The number of bytes the reader has not read yet (`circular::Buffer::available_data`). The
/// contract claims that it is the one named `xml_available_at` for the reader's bytes and the
/// steps taken: the parser reads the same way each time over the same bytes.
#[verifier::external_body]
pub fn stream_available(reader: &StreamReader) -> (r: usize)
    ensures
        r == xml_available_at(reader_input(*reader), reader_taken(*reader)),
{
    reader.inner.source().available_data()
}

/// Copies a name of `xml-rs` field by field.
#[verifier::external_body]
fn xml_name(n: xml::name::OwnedName) -> XmlName {
    XmlName { namespace: n.namespace, local_name: n.local_name }
}

/// Copies attributes of `xml-rs` field by field.
#[verifier::external_body]
fn xml_attributes(attributes: Vec<xml::attribute::OwnedAttribute>) -> Vec<XmlAttribute> {
    attributes.into_iter().map(|a| XmlAttribute { name: xml_name(a.name), value: a.value }).collect()
}

/// The next step of the pull parser (`xml::reader::EventReader::next`), its variants told
/// apart one by one. The contract claims that it is the step named `xml_step_at` for the
/// reader's bytes and the steps already taken, and that the reader has then taken one more.
#[verifier::external_body]
pub fn read_step(reader: &mut StreamReader) -> (r: XmlStep)
    ensures
        r@ == xml_step_at(reader_input(*old(reader)), reader_taken(*old(reader))),
        reader_input(*final(reader)) == reader_input(*old(reader)),
        reader_taken(*final(reader)) == reader_taken(*old(reader)) + 1,
{
    match reader.inner.next() {
        Ok(xml::reader::XmlEvent::StartDocument { .. }) => XmlStep::StartDocument,
        Ok(xml::reader::XmlEvent::ProcessingInstruction { .. }) => XmlStep::Instruction,
        Ok(xml::reader::XmlEvent::StartElement { name, attributes, .. }) => {
            XmlStep::StartElement(xml_name(name), xml_attributes(attributes))
        },
        Ok(xml::reader::XmlEvent::EndElement { name }) => XmlStep::EndElement(xml_name(name)),
        Ok(xml::reader::XmlEvent::Characters(s)) => XmlStep::Characters(s),
        Ok(_) => XmlStep::Other,
        Err(e) => match e.kind() {
            xml::reader::ErrorKind::Syntax(m) => XmlStep::SyntaxError(m.to_string()),
            _ => XmlStep::Failure,
        },
    }
}

/// Where the building of an element stands.
pub enum BuildStatus {
    /// The element is not closed yet.
    Pending,
    /// The element is closed; here it is.
    Finished(XmlElement),
    /// The stream does not hold a well-formed element.
    Failed,
}

pub enum BuildStatusView {
    Pending,
    Finished(ElementView),
    Failed,
}

impl View for BuildStatus {
    type V = BuildStatusView;

    open spec fn view(&self) -> BuildStatusView {
        match self {
            BuildStatus::Pending => BuildStatusView::Pending,
            BuildStatus::Finished(e) => BuildStatusView::Finished(e@),
            BuildStatus::Failed => BuildStatusView::Failed,
        }
    }
}

/// The open elements after text: it is the text of the innermost open element when that
/// has no child yet, else the tail of its last child.
pub open spec fn spec_with_text(open: Seq<ElementView>, s: Seq<char>) -> Seq<ElementView> {
    let top = open.last();
    let top2 = if top.children.len() > 0 {
        ElementView {
            children: top.children.drop_last().push(ElementView { tail: s, ..top.children.last() }),
            ..top
        }
    } else {
        ElementView { text: s, ..top }
    };
    open.drop_last().push(top2)
}

/// One step of building an element, from the elements still open, innermost last.
pub open spec fn spec_build_step(open: Seq<ElementView>, step: XmlStepView) -> (Seq<ElementView>, BuildStatusView) {
    match step {
        XmlStepView::StartDocument => (open, BuildStatusView::Pending),
        XmlStepView::Instruction => (open, BuildStatusView::Pending),
        XmlStepView::StartElement(n, attrs) => (open.push(spec_started_element(n, attrs)), BuildStatusView::Pending),
        XmlStepView::Characters(s) => (spec_with_text(open, s), BuildStatusView::Pending),
        XmlStepView::EndElement(n) => if qname_of(n) == open.last().tag {
            if open.len() == 1 {
                (Seq::empty(), BuildStatusView::Finished(open.last()))
            } else {
                let parent = open[open.len() - 2];
                (
                    open.subrange(0, open.len() - 2).push(
                        ElementView { children: parent.children.push(open.last()), ..parent },
                    ),
                    BuildStatusView::Pending,
                )
            }
        } else {
            (open, BuildStatusView::Failed)
        },
        _ => (open, BuildStatusView::Failed),
    }
}

/// Builds an element out of the steps that follow its opening tag.
pub struct ElementBuilder {
    open: Vec<XmlElement>,
}

impl View for ElementBuilder {
    type V = Seq<ElementView>;

    closed spec fn view(&self) -> Seq<ElementView> {
        self.open@.map_values(|e: XmlElement| e@)
    }
}

/// Whether a name read from the stream is the qualified name `q`.
pub fn name_is(n: &XmlName, q: &crate::element::QualName) -> (r: bool)
    ensures
        r == (name_view(*n) == q@),
{
    let same_ns = match (&n.namespace, &q.ns) {
        (Some(a), Some(b)) => str_eq(a.as_str(), b.as_str()),
        (None, None) => true,
        _ => false,
    };
    same_ns && str_eq(n.local_name.as_str(), q.name.as_str())
}

/// The element an opening tag starts.
pub fn started_element(name: &XmlName, attrs: &Vec<XmlAttribute>) -> (r: XmlElement)
    ensures
        r@ == spec_started_element(name@, attrs_view(attrs@)),
{
    let mut e = match &name.namespace {
        Some(ns) => XmlElement::new(Some(ns.as_str()), name.local_name.as_str()),
        None => XmlElement::new(None, name.local_name.as_str()),
    };
    let mut i: usize = 0;
    while i < attrs.len()
        invariant
            0 <= i <= attrs@.len(),
            e@ == (ElementView { attrs: spec_attrs_of(attrs_view(attrs@).subrange(0, i as int)), ..spec_empty_element(name_view(*name)) }),
        decreases attrs@.len() - i,
    {
        let a = &attrs[i];
        match &a.name.namespace {
            Some(ns) => e.set_attr_ns(Some(ns.as_str()), a.name.local_name.as_str(), a.value.as_str()),
            None => e.set_attr_ns(None, a.name.local_name.as_str(), a.value.as_str()),
        }
        proof {
            assert(attrs_view(attrs@).subrange(0, i + 1).drop_last() =~= attrs_view(attrs@).subrange(0, i as int));
        }
        i = i + 1;
    }
    assert(attrs_view(attrs@).subrange(0, attrs@.len() as int) =~= attrs_view(attrs@));
    e
}

impl ElementBuilder {
    /// A builder for the element an opening tag starts.
    pub fn start(name: &XmlName, attrs: &Vec<XmlAttribute>) -> (r: ElementBuilder)
        ensures
            r@ == seq![spec_started_element(name@, attrs_view(attrs@))],
    {
        let mut open: Vec<XmlElement> = Vec::new();
        open.push(started_element(name, attrs));
        let r = ElementBuilder { open };
        assert(r@ =~= seq![spec_started_element(name@, attrs_view(attrs@))]);
        r
    }

    /// Whether an element is still open.
    pub fn is_open(&self) -> (r: bool)
        ensures
            r == (self@.len() > 0),
    {
        self.open.len() > 0
    }

    /// Takes one more step of the stream into the element.
    pub fn step(&mut self, step: XmlStep) -> (r: BuildStatus)
        requires
            old(self)@.len() > 0,
        ensures
            (final(self)@, r@) == spec_build_step(old(self)@, step@),
    {
        let ghost pre = self@;
        match step {
            XmlStep::StartDocument => BuildStatus::Pending,
            XmlStep::Instruction => BuildStatus::Pending,
            XmlStep::StartElement(n, attrs) => {
                let e = started_element(&n, &attrs);
                self.open.push(e);
                assert(self@ =~= pre.push(spec_started_element(n@, attrs_view(attrs@))));
                BuildStatus::Pending
            },
            XmlStep::Characters(s) => {
                let mut top = self.open.pop().unwrap();
                assert(top@ == pre.last());
                match top.pop_child() {
                    Some(mut last) => {
                        last.set_tail(s);
                        top.append_child(last);
                    },
                    None => {
                        top.set_text(s.as_str());
                    },
                }
                self.open.push(top);
                proof {
                    assert(self@ =~= spec_with_text(pre, s@));
                }
                BuildStatus::Pending
            },
            XmlStep::EndElement(n) => {
                let k = self.open.len();
                assert(self.open@[k - 1]@ == pre.last());
                if !name_is(&n, &self.open[k - 1].tag) {
                    return BuildStatus::Failed;
                }
                let done = self.open.pop().unwrap();
                if k == 1 {
                    assert(self@ =~= Seq::<ElementView>::empty());
                    BuildStatus::Finished(done)
                } else {
                    let mut parent = self.open.pop().unwrap();
                    assert(parent@ == pre[k - 2]);
                    parent.append_child(done);
                    self.open.push(parent);
                    proof {
                        let parent_v = pre[k - 2];
                        assert(self@ =~= pre.subrange(0, k - 2).push(
                            ElementView { children: parent_v.children.push(pre.last()), ..parent_v },
                        ));
                    }
                    BuildStatus::Pending
                }
            },
            _ => BuildStatus::Failed,
        }
    }
}

/// The element at the bottom of the open ones keeps the tag and the attributes of its
/// opening tag through every step.
pub proof fn lemma_build_step_keeps_root(open: Seq<ElementView>, step: XmlStepView)
    requires
        open.len() > 0,
    ensures
        ({
            let (next, status) = spec_build_step(open, step);
            &&& status is Pending ==> next.len() > 0 && next[0].tag == open[0].tag && next[0].attrs == open[0].attrs
            &&& status matches BuildStatusView::Finished(e) ==> open.len() == 1 && e == open[0]
        }),
{
    match step {
        XmlStepView::StartElement(n, attrs) => {
            assert(open.push(spec_started_element(n, attrs))[0] == open[0]);
        },
        XmlStepView::Characters(s) => {
            if open.len() > 1 {
                assert(spec_with_text(open, s)[0] == open[0]);
            }
        },
        XmlStepView::EndElement(n) => {
            if qname_of(n) == open.last().tag && open.len() > 2 {
                let parent = open[open.len() - 2];
                let next = open.subrange(0, open.len() - 2).push(
                    ElementView { children: parent.children.push(open.last()), ..parent },
                );
                assert(next[0] == open[0]);
            }
        },
        _ => {},
    }
}

/// The most steps an element is read in; past them the reading gives up.
pub const MAX_READ_STEPS: u64 = 0xffff_ffff_ffff_ffff;

/// What reading the rest of an element gives, from step `k` of the reader's bytes, with the
/// elements still open and `fuel` steps left: the element once closed, or nothing when the
/// stream does not hold a well-formed element or the steps run out; and the steps taken by then.
pub open spec fn spec_read_from(bytes: Seq<u8>, k: nat, open: Seq<ElementView>, fuel: nat) -> (Option<ElementView>, nat)
    decreases fuel,
{
    if fuel == 0 {
        (None, k)
    } else {
        let (next, status) = spec_build_step(open, xml_step_at(bytes, k));
        match status {
            BuildStatusView::Pending => spec_read_from(bytes, k + 1, next, (fuel - 1) as nat),
            BuildStatusView::Finished(e) => (Some(e), k + 1),
            BuildStatusView::Failed => (None, k + 1),
        }
    }
}

/// An element read whole keeps the tag and the attributes of the element it was started as.
pub proof fn lemma_read_from_keeps_root(bytes: Seq<u8>, k: nat, open: Seq<ElementView>, fuel: nat)
    requires
        open.len() > 0,
    ensures
        spec_read_from(bytes, k, open, fuel).0 matches Some(e) ==> e.tag == open[0].tag && e.attrs == open[0].attrs,
    decreases fuel,
{
    if fuel > 0 {
        let step = xml_step_at(bytes, k);
        let (next, status) = spec_build_step(open, step);
        lemma_build_step_keeps_root(open, step);
        if status is Pending {
            lemma_read_from_keeps_root(bytes, k + 1, next, (fuel - 1) as nat);
        }
    }
}

/// What reading the element an opening tag starts gives, from step `k` of the reader's bytes.
pub open spec fn spec_read_element(bytes: Seq<u8>, k: nat, name: XmlNameView, attrs: Seq<XmlAttributeView>) -> (Option<ElementView>, nat) {
    spec_read_from(bytes, k, seq![spec_started_element(name, attrs)], MAX_READ_STEPS as nat)
}

/// Reads the content of the element an opening tag starts, up to its closing tag, and gives
/// the element back; nothing when the stream does not hold a well-formed element. The element
/// read keeps the tag and the attributes of the opening tag.
pub fn read_element(reader: &mut StreamReader, name: &XmlName, attrs: &Vec<XmlAttribute>) -> (r: Option<XmlElement>)
    ensures
        ({
            let (e, k) = spec_read_element(reader_input(*old(reader)), reader_taken(*old(reader)), name@, attrs_view(attrs@));
            &&& opt_elem_view(r) == e
            &&& reader_taken(*final(reader)) == k
            &&& reader_input(*final(reader)) == reader_input(*old(reader))
        }),
        r matches Some(e) ==> e@.tag == name_view(*name) && e@.attrs == spec_attrs_of(attrs_view(attrs@)),
{
    let ghost bytes = reader_input(*reader);
    let ghost goal = spec_read_element(bytes, reader_taken(*reader), name@, attrs_view(attrs@));
    let mut builder = ElementBuilder::start(name, attrs);
    let mut budget: u64 = MAX_READ_STEPS;
    while budget > 0
        invariant
            builder@.len() > 0,
            builder@[0].tag == name_view(*name),
            builder@[0].attrs == spec_attrs_of(attrs_view(attrs@)),
            reader_input(*reader) == bytes,
            bytes == reader_input(*old(reader)),
            goal == spec_read_element(bytes, reader_taken(*old(reader)), name@, attrs_view(attrs@)),
            spec_read_from(bytes, reader_taken(*reader), builder@, budget as nat) == goal,
        decreases budget,
    {
        let ghost before = builder@;
        let ghost taken0 = reader_taken(*reader);
        let ghost fuel0 = budget as nat;
        budget = budget - 1;
        let step = read_step(reader);
        proof {
            lemma_build_step_keeps_root(before, step@);
        }
        let status = builder.step(step);
        proof {
            assert(spec_read_from(bytes, taken0, before, fuel0) == goal);
            assert(xml_step_at(bytes, taken0) == step@);
            assert(spec_build_step(before, step@) == (builder@, status@));
        }
        match status {
            BuildStatus::Pending => {},
            BuildStatus::Finished(e) => {
                return Some(e);
            },
            BuildStatus::Failed => {
                return None;
            },
        }
    }
    None
}

} // verus!
