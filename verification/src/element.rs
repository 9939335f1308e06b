//! An XML element tree: tag, attributes, text and children.
use vstd::prelude::*;
use crate::jid::opt_view;
use crate::text::str_eq;

verus! {

/// A qualified name: an optional namespace URL and a local name.
#[derive(Clone, Debug)]
pub struct QualName {
    pub ns: Option<String>,
    pub name: String,
}

pub struct QualNameView {
    pub ns: Option<Seq<char>>,
    pub name: Seq<char>,
}

impl View for QualName {
    type V = QualNameView;

    open spec fn view(&self) -> QualNameView {
        QualNameView { ns: opt_view(self.ns), name: self.name@ }
    }
}

/// An attribute: its qualified name and its value.
#[derive(Clone, Debug)]
pub struct Attr {
    pub name: QualName,
    pub value: String,
}

pub struct AttrView {
    pub name: QualNameView,
    pub value: Seq<char>,
}

impl View for Attr {
    type V = AttrView;

    open spec fn view(&self) -> AttrView {
        AttrView { name: self.name@, value: self.value@ }
    }
}

/// A namespace prefix declared on an element: the URL and its prefix.
#[derive(Clone, Debug)]
pub struct NsPrefix {
    pub url: String,
    pub prefix: String,
}

pub struct NsPrefixView {
    pub url: Seq<char>,
    pub prefix: Seq<char>,
}

impl View for NsPrefix {
    type V = NsPrefixView;

    open spec fn view(&self) -> NsPrefixView {
        NsPrefixView { url: self.url@, prefix: self.prefix@ }
    }
}

/// An XML element.
#[derive(Debug)]
pub struct XmlElement {
    pub tag: QualName,
    /// The tag the element was created with, when `set_tag` changed it since.
    pub origin: Option<QualName>,
    pub attrs: Vec<Attr>,
    pub children: Vec<XmlElement>,
    pub text: String,
    pub tail: String,
    pub prefixes: Vec<NsPrefix>,
}

/// The mathematical value of an element.
pub struct ElementView {
    pub tag: QualNameView,
    pub origin: Option<QualNameView>,
    pub attrs: Seq<AttrView>,
    pub children: Seq<ElementView>,
    pub text: Seq<char>,
    pub tail: Seq<char>,
    pub prefixes: Seq<NsPrefixView>,
}

pub open spec fn element_view(e: XmlElement) -> ElementView
    decreases e,
{
    ElementView {
        tag: e.tag@,
        origin: match e.origin {
            Some(q) => Some(q@),
            None => None,
        },
        attrs: e.attrs@.map_values(|a: Attr| a@),
        children: Seq::new(
            e.children@.len(),
            |i: int|
                if 0 <= i < e.children@.len() {
                    element_view(e.children@[i])
                } else {
                    arbitrary()
                },
        ),
        text: e.text@,
        tail: e.tail@,
        prefixes: e.prefixes@.map_values(|p: NsPrefix| p@),
    }
}

impl View for XmlElement {
    type V = ElementView;

    open spec fn view(&self) -> ElementView {
        element_view(*self)
    }
}

/// An element with the given tag and nothing else.
pub open spec fn spec_empty_element(tag: QualNameView) -> ElementView {
    ElementView {
        tag: tag,
        origin: None,
        attrs: Seq::empty(),
        children: Seq::empty(),
        text: Seq::empty(),
        tail: Seq::empty(),
        prefixes: Seq::empty(),
    }
}

pub open spec fn qname(ns: Option<Seq<char>>, name: Seq<char>) -> QualNameView {
    QualNameView { ns: ns, name: name }
}

/// The name has no namespace and this local name.
pub open spec fn plain_name(name: Seq<char>) -> QualNameView {
    QualNameView { ns: None, name: name }
}

/// `i` is the first attribute named `n`.
pub open spec fn is_first_attr(attrs: Seq<AttrView>, n: QualNameView, i: int) -> bool {
    &&& 0 <= i < attrs.len()
    &&& attrs[i].name == n
    &&& forall|j: int| 0 <= j < i ==> attrs[j].name != n
}

/// The value of the first attribute named `n`, if any.
pub open spec fn attr_value(attrs: Seq<AttrView>, n: QualNameView) -> Option<Seq<char>> {
    if exists|i: int| is_first_attr(attrs, n, i) {
        Some(attrs[choose|i: int| is_first_attr(attrs, n, i)].value)
    } else {
        None
    }
}

/// The attributes after setting `n` to `v`: the first attribute named `n` takes the value,
/// or, when there is none, the attribute is added at the end.
pub open spec fn attrs_set(attrs: Seq<AttrView>, n: QualNameView, v: Seq<char>) -> Seq<AttrView> {
    if exists|i: int| is_first_attr(attrs, n, i) {
        attrs.update(choose|i: int| is_first_attr(attrs, n, i), AttrView { name: n, value: v })
    } else {
        attrs.push(AttrView { name: n, value: v })
    }
}

/// `i` is the first child with tag `n`.
pub open spec fn is_first_child(children: Seq<ElementView>, n: QualNameView, i: int) -> bool {
    &&& 0 <= i < children.len()
    &&& children[i].tag == n
    &&& forall|j: int| 0 <= j < i ==> children[j].tag != n
}

/// The first child with tag `n`, if any.
pub open spec fn find_child(e: ElementView, n: QualNameView) -> Option<ElementView> {
    if exists|i: int| is_first_child(e.children, n, i) {
        Some(e.children[choose|i: int| is_first_child(e.children, n, i)])
    } else {
        None
    }
}

/// The children with tag `n`, in their order.
pub open spec fn find_all_children(e: ElementView, n: QualNameView) -> Seq<ElementView> {
    e.children.filter(|c: ElementView| c.tag == n)
}

proof fn lemma_first_attr_unique(attrs: Seq<AttrView>, n: QualNameView, i: int)
    requires
        is_first_attr(attrs, n, i),
    ensures
        exists|k: int| is_first_attr(attrs, n, k),
        (choose|k: int| is_first_attr(attrs, n, k)) == i,
{
    let k = choose|k: int| is_first_attr(attrs, n, k);
    if k < i {
        assert(attrs[k].name != n);
    }
    if i < k {
        assert(attrs[i].name != n);
    }
}

proof fn lemma_first_child_unique(children: Seq<ElementView>, n: QualNameView, i: int)
    requires
        is_first_child(children, n, i),
    ensures
        exists|k: int| is_first_child(children, n, k),
        (choose|k: int| is_first_child(children, n, k)) == i,
{
    let k = choose|k: int| is_first_child(children, n, k);
    if k < i {
        assert(children[k].tag != n);
    }
    if i < k {
        assert(children[i].tag != n);
    }
}

/// Compares a name with an optional namespace and a local name.
fn opt_str_eq(a: &Option<String>, b: Option<&str>) -> (r: bool)
    ensures
        r == (opt_view(*a) == match b {
            Some(s) => Some(s@),
            None => None::<Seq<char>>,
        }),
{
    match a {
        Some(x) => match b {
            Some(y) => str_eq(x.as_str(), y),
            None => false,
        },
        None => b.is_none(),
    }
}

pub open spec fn opt_str_view(o: Option<&str>) -> Option<Seq<char>> {
    match o {
        Some(s) => Some(s@),
        None => None,
    }
}

fn opt_to_string(o: Option<&str>) -> (r: Option<String>)
    ensures
        opt_view(r) == opt_str_view(o),
{
    match o {
        Some(s) => Some(s.to_owned()),
        None => None,
    }
}

impl QualName {
    pub fn new(ns: Option<&str>, name: &str) -> (r: QualName)
        ensures
            r@ == qname(opt_str_view(ns), name@),
    {
        QualName { ns: opt_to_string(ns), name: name.to_owned() }
    }

    /// Whether this name has the namespace `ns` and the local name `name`.
    pub fn is(&self, ns: Option<&str>, name: &str) -> (r: bool)
        ensures
            r == (self@ == qname(opt_str_view(ns), name@)),
    {
        let a = opt_str_eq(&self.ns, ns);
        let b = str_eq(self.name.as_str(), name);
        a && b
    }

    pub fn copy(&self) -> (r: QualName)
        ensures
            r@ == self@,
    {
        QualName {
            ns: match &self.ns {
                Some(s) => Some(s.clone()),
                None => None,
            },
            name: self.name.clone(),
        }
    }
}

impl Attr {
    pub fn copy(&self) -> (r: Attr)
        ensures
            r@ == self@,
    {
        Attr { name: self.name.copy(), value: self.value.clone() }
    }
}

impl NsPrefix {
    pub fn copy(&self) -> (r: NsPrefix)
        ensures
            r@ == self@,
    {
        NsPrefix { url: self.url.clone(), prefix: self.prefix.clone() }
    }
}

impl XmlElement {
    /// Creates a new element without any children but a given tag.
    pub fn new(ns: Option<&str>, name: &str) -> (r: XmlElement)
        ensures
            r@ == spec_empty_element(qname(opt_str_view(ns), name@)),
    {
        let r = XmlElement {
            tag: QualName::new(ns, name),
            origin: None,
            attrs: Vec::new(),
            children: Vec::new(),
            text: String::new(),
            tail: String::new(),
            prefixes: Vec::new(),
        };
        assert(r@.attrs =~= Seq::<AttrView>::empty());
        assert(r@.children =~= Seq::<ElementView>::empty());
        assert(r@.prefixes =~= Seq::<NsPrefixView>::empty());
        r
    }

    /// A deep copy of this element.
    pub fn copy(&self) -> (r: XmlElement)
        ensures
            r@ == self@,
        decreases self,
    {
        let mut attrs: Vec<Attr> = Vec::new();
        let mut i: usize = 0;
        while i < self.attrs.len()
            invariant
                0 <= i <= self.attrs@.len(),
                attrs@.len() == i,
                forall|j: int| 0 <= j < i ==> attrs@[j]@ == self.attrs@[j]@,
            decreases self.attrs@.len() - i,
        {
            attrs.push(self.attrs[i].copy());
            i = i + 1;
        }
        let mut children: Vec<XmlElement> = Vec::new();
        let mut i: usize = 0;
        while i < self.children.len()
            invariant
                0 <= i <= self.children@.len(),
                children@.len() == i,
                forall|j: int| 0 <= j < i ==> children@[j]@ == self.children@[j]@,
            decreases self.children@.len() - i,
        {
            assert(decreases_to!(*self => self.children@[i as int]));
            children.push(self.children[i].copy());
            i = i + 1;
        }
        let mut prefixes: Vec<NsPrefix> = Vec::new();
        let mut i: usize = 0;
        while i < self.prefixes.len()
            invariant
                0 <= i <= self.prefixes@.len(),
                prefixes@.len() == i,
                forall|j: int| 0 <= j < i ==> prefixes@[j]@ == self.prefixes@[j]@,
            decreases self.prefixes@.len() - i,
        {
            prefixes.push(self.prefixes[i].copy());
            i = i + 1;
        }
        let r = XmlElement {
            tag: self.tag.copy(),
            origin: match &self.origin {
                Some(q) => Some(q.copy()),
                None => None,
            },
            attrs,
            children,
            text: self.text.clone(),
            tail: self.tail.clone(),
            prefixes,
        };
        assert(r@.attrs =~= self@.attrs);
        assert(r@.children =~= self@.children);
        assert(r@.prefixes =~= self@.prefixes);
        r
    }

    /// Returns the text of the element.
    pub fn text(&self) -> (r: &str)
        ensures
            r@ == self@.text,
    {
        self.text.as_str()
    }

    /// Sets a new text value for the element.
    pub fn set_text(&mut self, value: &str)
        ensures
            final(self)@ == (ElementView { text: value@, ..old(self)@ }),
    {
        self.text = value.to_owned();
        assert(final(self)@.attrs =~= old(self)@.attrs);
        assert(final(self)@.children =~= old(self)@.children);
        assert(final(self)@.prefixes =~= old(self)@.prefixes);
    }

    /// The number of children.
    pub fn child_count(&self) -> (r: usize)
        ensures
            r == self@.children.len(),
    {
        self.children.len()
    }

    /// Whether the tag has the namespace `ns` and the local name `name`.
    pub fn tag_is(&self, ns: Option<&str>, name: &str) -> (r: bool)
        ensures
            r == (self@.tag == qname(opt_str_view(ns), name@)),
    {
        self.tag.is(ns, name)
    }

    /// The value of the attribute named `name` in the namespace `ns`.
    pub fn get_attr_ns(&self, ns: Option<&str>, name: &str) -> (r: Option<&str>)
        ensures
            opt_str_view(r) == attr_value(self@.attrs, qname(opt_str_view(ns), name@)),
    {
        let ghost n = qname(opt_str_view(ns), name@);
        let mut i: usize = 0;
        while i < self.attrs.len()
            invariant
                0 <= i <= self.attrs@.len(),
                n == qname(opt_str_view(ns), name@),
                forall|j: int| 0 <= j < i ==> self@.attrs[j].name != n,
            decreases self.attrs@.len() - i,
        {
            assert(self@.attrs[i as int] == self.attrs@[i as int]@);
            if self.attrs[i].name.is(ns, name) {
                proof {
                    lemma_first_attr_unique(self@.attrs, n, i as int);
                }
                return Some(self.attrs[i].value.as_str());
            }
            i = i + 1;
        }
        None
    }

    /// The value of the attribute named `name` (without namespace).
    pub fn get_attr(&self, name: &str) -> (r: Option<&str>)
        ensures
            opt_str_view(r) == attr_value(self@.attrs, plain_name(name@)),
    {
        self.get_attr_ns(None, name)
    }

    /// Sets the attribute named `name` in the namespace `ns` to `value`.
    pub fn set_attr_ns(&mut self, ns: Option<&str>, name: &str, value: &str)
        ensures
            final(self)@ == (ElementView {
                attrs: attrs_set(old(self)@.attrs, qname(opt_str_view(ns), name@), value@),
                ..old(self)@
            }),
    {
        let ghost n = qname(opt_str_view(ns), name@);
        let ghost old_attrs = self@.attrs;
        let mut i: usize = 0;
        while i < self.attrs.len()
            invariant
                0 <= i <= self.attrs@.len(),
                n == qname(opt_str_view(ns), name@),
                *self == *old(self),
                self@.attrs == old_attrs,
                forall|j: int| 0 <= j < i ==> self@.attrs[j].name != n,
            decreases self.attrs@.len() - i,
        {
            assert(self@.attrs[i as int] == self.attrs@[i as int]@);
            if self.attrs[i].name.is(ns, name) {
                proof {
                    lemma_first_attr_unique(old_attrs, n, i as int);
                }
                let a = Attr { name: QualName::new(ns, name), value: value.to_owned() };
                let ghost pre = *self;
                self.attrs.set(i, a);
                proof {
                    assert(self@.attrs =~= old_attrs.update(i as int, AttrView { name: n, value: value@ }));
                    assert(self@.children =~= pre@.children);
                    assert(self@.prefixes =~= pre@.prefixes);
                }
                return;
            }
            i = i + 1;
        }
        let ghost pre = *self;
        self.attrs.push(Attr { name: QualName::new(ns, name), value: value.to_owned() });
        proof {
            assert(self@.attrs =~= old_attrs.push(AttrView { name: n, value: value@ }));
            assert(self@.children =~= pre@.children);
            assert(self@.prefixes =~= pre@.prefixes);
        }
    }

    /// Sets the attribute named `name` (without namespace) to `value`.
    pub fn set_attr(&mut self, name: &str, value: &str)
        ensures
            final(self)@ == (ElementView {
                attrs: attrs_set(old(self)@.attrs, plain_name(name@), value@),
                ..old(self)@
            }),
    {
        self.set_attr_ns(None, name, value)
    }

    /// Appends a child at the end of the children.
    pub fn append_child(&mut self, child: XmlElement)
        ensures
            final(self)@ == (ElementView { children: old(self)@.children.push(child@), ..old(self)@ }),
    {
        let ghost pre = *self;
        self.children.push(child);
        proof {
            assert(self@.children =~= pre@.children.push(child@));
            assert(self@.attrs =~= pre@.attrs);
            assert(self@.prefixes =~= pre@.prefixes);
        }
    }

    /// Takes the last child out, if there is one.
    pub fn pop_child(&mut self) -> (r: Option<XmlElement>)
        ensures
            old(self)@.children.len() == 0 ==> r is None && final(self)@ == old(self)@,
            old(self)@.children.len() > 0 ==> (r matches Some(c) && c@ == old(self)@.children.last()
                && final(self)@ == (ElementView { children: old(self)@.children.drop_last(), ..old(self)@ })),
    {
        let ghost pre = *self;
        let r = self.children.pop();
        proof {
            assert(self@.attrs =~= pre@.attrs);
            assert(self@.prefixes =~= pre@.prefixes);
            if pre.children@.len() > 0 {
                assert(self@.children =~= pre@.children.drop_last());
            } else {
                assert(self@.children =~= pre@.children);
            }
        }
        r
    }

    /// Sets the text that follows the element, inside its parent.
    pub fn set_tail(&mut self, value: String)
        ensures
            final(self)@ == (ElementView { tail: value@, ..old(self)@ }),
    {
        let ghost pre = *self;
        self.tail = value;
        proof {
            assert(self@.attrs =~= pre@.attrs);
            assert(self@.children =~= pre@.children);
            assert(self@.prefixes =~= pre@.prefixes);
        }
    }

    /// Gives the element another tag; the tag it was created with is kept in `origin`.
    pub fn set_tag(&mut self, ns: Option<&str>, name: &str)
        ensures
            final(self)@ == (ElementView {
                tag: qname(opt_str_view(ns), name@),
                origin: match old(self)@.origin {
                    Some(q) => Some(q),
                    None => Some(old(self)@.tag),
                },
                ..old(self)@
            }),
    {
        let ghost pre = *self;
        if self.origin.is_none() {
            self.origin = Some(self.tag.copy());
        }
        self.tag = QualName::new(ns, name);
        proof {
            assert(self@.attrs =~= pre@.attrs);
            assert(self@.children =~= pre@.children);
            assert(self@.prefixes =~= pre@.prefixes);
        }
    }

    /// Declares `prefix` for the namespace `url` on this element.
    pub fn set_namespace_prefix(&mut self, url: &str, prefix: &str)
        ensures
            final(self)@ == (ElementView {
                prefixes: old(self)@.prefixes.push(NsPrefixView { url: url@, prefix: prefix@ }),
                ..old(self)@
            }),
    {
        let ghost pre = *self;
        self.prefixes.push(NsPrefix { url: url.to_owned(), prefix: prefix.to_owned() });
        proof {
            assert(self@.prefixes =~= pre@.prefixes.push(NsPrefixView { url: url@, prefix: prefix@ }));
            assert(self@.attrs =~= pre@.attrs);
            assert(self@.children =~= pre@.children);
        }
    }

    /// The first child with the namespace `ns` and the local name `name`.
    pub fn find(&self, ns: Option<&str>, name: &str) -> (r: Option<&XmlElement>)
        ensures
            match r {
                Some(c) => find_child(self@, qname(opt_str_view(ns), name@)) == Some(c@),
                None => find_child(self@, qname(opt_str_view(ns), name@)) is None,
            },
    {
        let ghost n = qname(opt_str_view(ns), name@);
        let mut i: usize = 0;
        while i < self.children.len()
            invariant
                0 <= i <= self.children@.len(),
                n == qname(opt_str_view(ns), name@),
                forall|j: int| 0 <= j < i ==> self@.children[j].tag != n,
            decreases self.children@.len() - i,
        {
            assert(self@.children[i as int] == self.children@[i as int]@);
            if self.children[i].tag.is(ns, name) {
                proof {
                    lemma_first_child_unique(self@.children, n, i as int);
                }
                return Some(&self.children[i]);
            }
            i = i + 1;
        }
        None
    }

    /// Copies of the children with the namespace `ns` and the local name `name`, in order.
    pub fn find_all(&self, ns: Option<&str>, name: &str) -> (r: Vec<XmlElement>)
        ensures
            r@.map_values(|c: XmlElement| c@) == find_all_children(self@, qname(opt_str_view(ns), name@)),
    {
        let ghost n = qname(opt_str_view(ns), name@);
        let ghost pred = |c: ElementView| c.tag == n;
        let mut out: Vec<XmlElement> = Vec::new();
        let mut i: usize = 0;
        while i < self.children.len()
            invariant
                0 <= i <= self.children@.len(),
                n == qname(opt_str_view(ns), name@),
                pred == (|c: ElementView| c.tag == n),
                out@.map_values(|c: XmlElement| c@) =~= self@.children.take(i as int).filter(pred),
            decreases self.children@.len() - i,
        {
            reveal_with_fuel(Seq::<_>::filter, 1);
            assert(self@.children[i as int] == self.children@[i as int]@);
            assert(self@.children.take(i + 1).drop_last() =~= self@.children.take(i as int));
            if self.children[i].tag.is(ns, name) {
                out.push(self.children[i].copy());
            }
            i = i + 1;
        }
        assert(self@.children.take(self.children@.len() as int) =~= self@.children);
        out
    }
}

/// After setting an attribute, reading it gives back the value that was set.
pub proof fn lemma_set_then_get_attr(attrs: Seq<AttrView>, n: QualNameView, v: Seq<char>)
    ensures
        attr_value(attrs_set(attrs, n, v), n) == Some(v),
{
    let s = attrs_set(attrs, n, v);
    if exists|i: int| is_first_attr(attrs, n, i) {
        let i = choose|i: int| is_first_attr(attrs, n, i);
        assert(is_first_attr(s, n, i));
        lemma_first_attr_unique(s, n, i);
    } else {
        let i = attrs.len() as int;
        assert forall|j: int| 0 <= j < i implies s[j].name != n by {
            if s[j].name == n {
                assert(is_first_attr(attrs, n, j)) by {
                    if exists|k: int| 0 <= k < j && attrs[k].name == n {
                        let k = choose|k: int| 0 <= k < j && attrs[k].name == n;
                        lemma_no_first_attr(attrs, n, k);
                    }
                }
            }
        }
        assert(is_first_attr(s, n, i));
        lemma_first_attr_unique(s, n, i);
    }
}

proof fn lemma_no_first_attr(attrs: Seq<AttrView>, n: QualNameView, k: int)
    requires
        0 <= k < attrs.len(),
        attrs[k].name == n,
    ensures
        exists|i: int| is_first_attr(attrs, n, i),
    decreases k,
{
    if exists|j: int| 0 <= j < k && attrs[j].name == n {
        let j = choose|j: int| 0 <= j < k && attrs[j].name == n;
        lemma_no_first_attr(attrs, n, j);
    } else {
        assert(is_first_attr(attrs, n, k));
    }
}

/// Setting an attribute leaves the value of every other attribute as it was.
pub proof fn lemma_set_attr_keeps_others(attrs: Seq<AttrView>, n: QualNameView, v: Seq<char>, m: QualNameView)
    requires
        m != n,
    ensures
        attr_value(attrs_set(attrs, n, v), m) == attr_value(attrs, m),
{
    let s = attrs_set(attrs, n, v);
    if exists|i: int| is_first_attr(attrs, m, i) {
        let i = choose|i: int| is_first_attr(attrs, m, i);
        assert(is_first_attr(s, m, i));
        lemma_first_attr_unique(s, m, i);
    } else {
        assert forall|j: int| 0 <= j < attrs.len() implies s[j].name == attrs[j].name by {
            if exists|k: int| is_first_attr(attrs, n, k) {
                let k = choose|k: int| is_first_attr(attrs, n, k);
                assert(is_first_attr(attrs, n, k));
            }
        }
        if exists|i: int| is_first_attr(s, m, i) {
            let i = choose|i: int| is_first_attr(s, m, i);
            assert(is_first_attr(s, m, i));
            assert(i < attrs.len());
            assert(is_first_attr(attrs, m, i));
        }
    }
}

/// The first child, when it has the tag, is the one found.
pub proof fn lemma_find_first_child(e: ElementView, n: QualNameView)
    requires
        e.children.len() > 0,
        e.children[0].tag == n,
    ensures
        find_child(e, n) == Some(e.children[0]),
{
    assert(is_first_child(e.children, n, 0));
    lemma_first_child_unique(e.children, n, 0);
}

/// The second child, when it has the tag and the first has not, is the one found.
pub proof fn lemma_find_second_child(e: ElementView, n: QualNameView)
    requires
        e.children.len() > 1,
        e.children[0].tag != n,
        e.children[1].tag == n,
    ensures
        find_child(e, n) == Some(e.children[1]),
{
    assert(is_first_child(e.children, n, 1));
    lemma_first_child_unique(e.children, n, 1);
}

/// No child has the tag: none is found.
pub proof fn lemma_find_no_child(e: ElementView, n: QualNameView)
    requires
        forall|i: int| 0 <= i < e.children.len() ==> e.children[i].tag != n,
    ensures
        find_child(e, n) is None,
{
    if exists|i: int| is_first_child(e.children, n, i) {
        let i = choose|i: int| is_first_child(e.children, n, i);
        assert(e.children[i].tag == n);
    }
}

/// When every child has the tag, the children with the tag are all the children.
pub proof fn lemma_find_all_of_one_tag(e: ElementView, n: QualNameView)
    requires
        forall|i: int| 0 <= i < e.children.len() ==> e.children[i].tag == n,
    ensures
        find_all_children(e, n) == e.children,
{
    lemma_filter_keeps_all(e.children, n);
}

proof fn lemma_filter_keeps_all(s: Seq<ElementView>, n: QualNameView)
    requires
        forall|i: int| 0 <= i < s.len() ==> s[i].tag == n,
    ensures
        s.filter(|c: ElementView| c.tag == n) == s,
    decreases s.len(),
{
    reveal(Seq::filter);
    if s.len() > 0 {
        lemma_filter_keeps_all(s.drop_last(), n);
        assert(s.drop_last().push(s.last()) =~= s);
    }
}

} // verus!
