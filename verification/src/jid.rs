//! Jabber identifiers (RFC 6122): `node@domain/resource`.
use vstd::prelude::*;
use crate::text::{has_char, piece_before, rest_after, second_piece, find_char, substring, push_char, lemma_index_of_bounds, lemma_index_after_prefix, lemma_index_absent};

verus! {

/// The mathematical value of a JID: its three components as character sequences.
pub struct JidView {
    pub node: Option<Seq<char>>,
    pub domain: Seq<char>,
    pub resource: Option<Seq<char>>,
}

///
/// Represents a Jabber ID (JID)
///
/// A JID is composed by two optionals components and a required one.
///
#[derive(Clone, Debug, PartialEq, Eq)]
pub struct Jid {
    pub node: Option<String>,
    pub domain: String,
    pub resource: Option<String>,
}

/// The error a conversion to a JID gives back.
#[derive(Debug, Clone, Copy, PartialEq, Eq)]
pub enum JidError {
    InvalidInput,
}

pub open spec fn opt_view(o: Option<String>) -> Option<Seq<char>> {
    match o {
        Some(s) => Some(s@),
        None => None,
    }
}

impl View for Jid {
    type V = JidView;

    open spec fn view(&self) -> JidView {
        JidView { node: opt_view(self.node), domain: self.domain@, resource: opt_view(self.resource) }
    }
}

/// What `from_full_jid` reads out of `s`: the node is the text before the first `@` (if any),
/// the rest is the second `@`-separated piece; the domain is the text of that rest before its
/// first `/`, and the resource, as RFC 6122 has it, all the text after that `/` (if any).
pub open spec fn spec_parse_jid(s: Seq<char>) -> JidView {
    let node = if has_char(s, '@') { Some(piece_before(s, '@')) } else { None };
    let rest = if has_char(s, '@') { second_piece(s, '@') } else { s };
    JidView {
        node: node,
        domain: piece_before(rest, '/'),
        resource: if has_char(rest, '/') { Some(rest_after(rest, '/')) } else { None },
    }
}

/// The text form of a JID: `node@domain/resource`, each separator present only with its part.
pub open spec fn spec_jid_text(j: JidView) -> Seq<char> {
    let head = match j.node {
        Some(n) => n + seq!['@'],
        None => Seq::empty(),
    };
    let tail = match j.resource {
        Some(r) => seq!['/'] + r,
        None => Seq::empty(),
    };
    head + j.domain + tail
}

/// The components contain no separator, so the text form reads back as the same JID.
pub open spec fn jid_separators_free(j: JidView) -> bool {
    &&& (j.node matches Some(n) ==> !has_char(n, '@'))
    &&& !has_char(j.domain, '@')
    &&& !has_char(j.domain, '/')
    &&& (j.resource matches Some(r) ==> !has_char(r, '@'))
}

/// The text has at most one `@`: nothing is dropped by reading it.
pub open spec fn jid_text_simple(s: Seq<char>) -> bool {
    let rest = if has_char(s, '@') { rest_after(s, '@') } else { s };
    !has_char(rest, '@')
}

fn piece_text(s: &str, c: char) -> (r: (String, Option<String>))
    ensures
        r.0@ == piece_before(s@, c),
        r.1 matches Some(t) ==> has_char(s@, c) && t@ == second_piece(s@, c),
        r.1 is None ==> !has_char(s@, c),
{
    let n = s.unicode_len();
    let i = find_char(s, c);
    proof {
        lemma_index_of_bounds(s@, c);
    }
    let first = substring(s, 0, i);
    if i < n {
        let rest = s.substring_char(i + 1, n);
        let j = find_char(rest, c);
        proof {
            lemma_index_of_bounds(rest@, c);
            assert(rest@ =~= rest_after(s@, c));
        }
        let second = substring(rest, 0, j);
        (first, Some(second))
    } else {
        (first, None)
    }
}

/// The text before the first `c`, and all the text after it when there is one.
fn split_at_first(s: &str, c: char) -> (r: (String, Option<String>))
    ensures
        r.0@ == piece_before(s@, c),
        r.1 matches Some(t) ==> has_char(s@, c) && t@ == rest_after(s@, c),
        r.1 is None ==> !has_char(s@, c),
{
    let n = s.unicode_len();
    let i = find_char(s, c);
    proof {
        lemma_index_of_bounds(s@, c);
    }
    let first = substring(s, 0, i);
    if i < n {
        let rest = substring(s, i + 1, n);
        assert(rest@ =~= rest_after(s@, c));
        (first, Some(rest))
    } else {
        (first, None)
    }
}

fn opt_copy(o: &Option<String>) -> (r: Option<String>)
    ensures
        opt_view(r) == opt_view(*o),
{
    match o {
        Some(s) => Some(s.clone()),
        None => None,
    }
}

/// Equality of two optional strings by their characters.
pub fn opt_eq(a: &Option<String>, b: &Option<String>) -> (r: bool)
    ensures
        r == (opt_view(*a) == opt_view(*b)),
{
    match a {
        Some(x) => match b {
            Some(y) => { let e: bool = *x == *y; e },
            None => false,
        },
        None => b.is_none(),
    }
}

impl Jid {
    pub fn from_full_jid(jid: &str) -> (r: Jid)
        ensures
            r@ == spec_parse_jid(jid@),
    {
        let (first, second) = piece_text(jid, '@');
        let (node, domain_full) = match second {
            Some(d) => (Some(first), d),
            None => (None, first),
        };
        proof {
            if !has_char(jid@, '@') {
                lemma_index_absent(jid@, '@');
            }
        }
        let (domain, resource) = split_at_first(domain_full.as_str(), '/');
        Jid { node, domain, resource }
    }

    /// The text form `node@domain/resource`.
    pub fn to_string(&self) -> (r: String)
        ensures
            r@ == spec_jid_text(self@),
    {
        let mut out = String::new();
        match &self.node {
            Some(n) => {
                out.append(n.as_str());
                push_char(&mut out, '@');
            },
            None => {},
        }
        out.append(self.domain.as_str());
        match &self.resource {
            Some(r) => {
                push_char(&mut out, '/');
                out.append(r.as_str());
            },
            None => {},
        }
        proof {
            let head = match self@.node {
                Some(n) => n + seq!['@'],
                None => Seq::empty(),
            };
            let tail = match self@.resource {
                Some(r) => seq!['/'] + r,
                None => Seq::empty(),
            };
            assert(out@ =~= head + self@.domain + tail);
        }
        out
    }

    /// Reads a JID out of its text; this never fails.
    pub fn from_str(input: &str) -> (r: Result<Jid, JidError>)
        ensures
            r matches Ok(j) && j@ == spec_parse_jid(input@),
    {
        Ok(Jid::from_full_jid(input))
    }

    /// A copy of this JID.
    pub fn copy(&self) -> (r: Jid)
        ensures
            r@ == self@,
    {
        Jid { node: opt_copy(&self.node), domain: self.domain.clone(), resource: opt_copy(&self.resource) }
    }

    /// Equality of the three components.
    pub fn same_as(&self, other: &Jid) -> (r: bool)
        ensures
            r == (self@ == other@),
    {
        let nodes = opt_eq(&self.node, &other.node);
        let resources = opt_eq(&self.resource, &other.resource);
        let domains = self.domain == other.domain;
        nodes && domains && resources
    }
}

/// Conversion of a value into a JID.
pub trait ToJid {
    /// What the conversion gives back.
    spec fn spec_to_jid(&self) -> Result<JidView, JidError>;

    fn to_jid(&self) -> (r: Result<Jid, JidError>)
        ensures
            match (r, self.spec_to_jid()) {
                (Ok(j), Ok(v)) => j@ == v,
                (Err(e), Err(f)) => e == f,
                _ => false,
            };
}

impl ToJid for Jid {
    open spec fn spec_to_jid(&self) -> Result<JidView, JidError> {
        Ok(self@)
    }

    fn to_jid(&self) -> (r: Result<Jid, JidError>) {
        Ok(self.copy())
    }
}

impl ToJid for String {
    open spec fn spec_to_jid(&self) -> Result<JidView, JidError> {
        Ok(spec_parse_jid(self@))
    }

    fn to_jid(&self) -> (r: Result<Jid, JidError>) {
        Jid::from_str(self.as_str())
    }
}

impl<'a> ToJid for &'a str {
    open spec fn spec_to_jid(&self) -> Result<JidView, JidError> {
        Ok(spec_parse_jid((*self)@))
    }

    fn to_jid(&self) -> (r: Result<Jid, JidError>) {
        Jid::from_str(*self)
    }
}

/// Converts an optional value: `None` is refused with `InvalidInput`.
pub fn option_to_jid<T: ToJid>(o: Option<&T>) -> (r: Result<Jid, JidError>)
    ensures
        o is None ==> r == Err::<Jid, JidError>(JidError::InvalidInput),
        o matches Some(t) ==> match (r, t.spec_to_jid()) {
            (Ok(j), Ok(v)) => j@ == v,
            (Err(e), Err(f)) => e == f,
            _ => false,
        },
{
    match o {
        Some(t) => t.to_jid(),
        None => Err(JidError::InvalidInput),
    }
}

/// Reading the text form of a JID whose parts hold no separator gives that JID back.
pub proof fn lemma_jid_text_roundtrip(j: JidView)
    requires
        jid_separators_free(j),
    ensures
        spec_parse_jid(spec_jid_text(j)) == j,
{
    let s = spec_jid_text(j);
    let tail = match j.resource {
        Some(r) => seq!['/'] + r,
        None => Seq::<char>::empty(),
    };
    let rest = j.domain + tail;
    assert(!has_char(rest, '@')) by {
        if has_char(rest, '@') {
            let i = choose|i: int| 0 <= i < rest.len() && rest[i] == '@';
            if i < j.domain.len() {
                assert(j.domain[i] == '@');
            } else {
                let r = j.resource->0;
                assert(r[i - j.domain.len() - 1] == '@');
            }
        }
    }
    match j.node {
        Some(n) => {
            assert(s =~= n + seq!['@'] + rest);
            lemma_index_after_prefix(n, '@', rest);
            lemma_index_absent(rest, '@');
        },
        None => {
            assert(s =~= rest);
        },
    }
    match j.resource {
        Some(r) => {
            assert(rest =~= j.domain + seq!['/'] + r);
            lemma_index_after_prefix(j.domain, '/', r);
        },
        None => {
            assert(rest =~= j.domain);
            lemma_index_absent(j.domain, '/');
        },
    }
}

/// Writing back a JID read from a text that has at most one `@` gives that text back.
pub proof fn lemma_jid_parse_text(s: Seq<char>)
    requires
        jid_text_simple(s),
    ensures
        spec_jid_text(spec_parse_jid(s)) == s,
{
    lemma_index_of_bounds(s, '@');
    let rest = if has_char(s, '@') { rest_after(s, '@') } else { s };
    lemma_index_of_bounds(rest, '/');
    if has_char(s, '@') {
        lemma_index_absent(rest, '@');
        assert(second_piece(s, '@') =~= rest);
        assert(s =~= piece_before(s, '@') + seq!['@'] + rest);
    }
    if has_char(rest, '/') {
        let after = rest_after(rest, '/');
        assert(rest =~= piece_before(rest, '/') + seq!['/'] + after);
    } else {
        assert(piece_before(rest, '/') =~= rest);
    }
}

} // verus!
