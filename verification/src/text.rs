//! Character-level helpers on strings, with their specifications over `Seq<char>`.
use vstd::prelude::*;

verus! {

/// `c` occurs somewhere in `s`.
pub open spec fn has_char(s: Seq<char>, c: char) -> bool {
    exists|i: int| 0 <= i < s.len() && s[i] == c
}

/// `i` is the position of the first `c` in `s`.
pub open spec fn is_first_index(s: Seq<char>, c: char, i: int) -> bool {
    &&& 0 <= i < s.len()
    &&& s[i] == c
    &&& forall|j: int| 0 <= j < i ==> s[j] != c
}

/// Position of the first `c` in `s`, or the length of `s` when there is none.
pub open spec fn index_of(s: Seq<char>, c: char) -> int {
    if has_char(s, c) {
        choose|i: int| is_first_index(s, c, i)
    } else {
        s.len() as int
    }
}

/// The text before the first `c` (all of `s` when there is none).
pub open spec fn piece_before(s: Seq<char>, c: char) -> Seq<char> {
    s.take(index_of(s, c))
}

/// The text after the first `c` (empty when there is none).
pub open spec fn rest_after(s: Seq<char>, c: char) -> Seq<char> {
    if has_char(s, c) {
        s.skip(index_of(s, c) + 1)
    } else {
        Seq::empty()
    }
}

/// The second piece of `s` split on `c`: the text between the first and the second `c`.
pub open spec fn second_piece(s: Seq<char>, c: char) -> Seq<char> {
    piece_before(rest_after(s, c), c)
}

/// Number of occurrences of `c` in `s`.
pub open spec fn count_char(s: Seq<char>, c: char) -> nat
    decreases s.len(),
{
    if s.len() == 0 {
        0
    } else {
        (if s.last() == c { 1nat } else { 0nat }) + count_char(s.drop_last(), c)
    }
}

pub proof fn lemma_first_index_unique(s: Seq<char>, c: char, i: int)
    requires
        is_first_index(s, c, i),
    ensures
        has_char(s, c),
        index_of(s, c) == i,
{
    let k = choose|k: int| is_first_index(s, c, k);
    assert(is_first_index(s, c, k));
    if k < i {
        assert(s[k] != c);
    }
    if i < k {
        assert(s[i] != c);
    }
}

pub proof fn lemma_index_of_bounds(s: Seq<char>, c: char)
    ensures
        0 <= index_of(s, c) <= s.len(),
        has_char(s, c) ==> is_first_index(s, c, index_of(s, c)),
        forall|j: int| 0 <= j < index_of(s, c) ==> s[j] != c,
{
    if has_char(s, c) {
        let w = choose|w: int| 0 <= w < s.len() && s[w] == c;
        lemma_exists_first(s, c, w);
        let k = choose|k: int| is_first_index(s, c, k);
        assert(is_first_index(s, c, k));
    }
}

proof fn lemma_exists_first(s: Seq<char>, c: char, w: int)
    requires
        0 <= w < s.len(),
        s[w] == c,
    ensures
        exists|k: int| is_first_index(s, c, k),
    decreases w,
{
    if exists|j: int| 0 <= j < w && s[j] == c {
        let j = choose|j: int| 0 <= j < w && s[j] == c;
        lemma_exists_first(s, c, j);
    } else {
        assert(is_first_index(s, c, w));
    }
}

/// When `c` does not occur in `a`, the first `c` of `a + seq![c] + b` is right after `a`.
pub proof fn lemma_index_after_prefix(a: Seq<char>, c: char, b: Seq<char>)
    requires
        !has_char(a, c),
    ensures
        index_of(a + seq![c] + b, c) == a.len(),
        piece_before(a + seq![c] + b, c) =~= a,
        rest_after(a + seq![c] + b, c) =~= b,
        has_char(a + seq![c] + b, c),
{
    let s = a + seq![c] + b;
    assert(s[a.len() as int] == c);
    assert forall|j: int| 0 <= j < a.len() implies s[j] != c by {
        assert(s[j] == a[j]);
    }
    assert(is_first_index(s, c, a.len() as int));
    lemma_first_index_unique(s, c, a.len() as int);
}

/// When `c` does not occur in `a`, `a` is a single piece.
pub proof fn lemma_index_absent(a: Seq<char>, c: char)
    requires
        !has_char(a, c),
    ensures
        index_of(a, c) == a.len(),
        piece_before(a, c) =~= a,
        rest_after(a, c) =~= Seq::<char>::empty(),
{
}

/// Equality of two strings, character by character.
pub fn str_eq(a: &str, b: &str) -> (r: bool)
    ensures
        r == (a@ == b@),
{
    let x = a.to_owned();
    let y = b.to_owned();
    x == y
}

/// Position of the first `c` in `s`, or its length.
pub fn find_char(s: &str, c: char) -> (r: usize)
    ensures
        r as int == index_of(s@, c),
{
    let n = s.unicode_len();
    let mut i: usize = 0;
    while i < n
        invariant
            n as int == s@.len(),
            0 <= i <= n,
            forall|j: int| 0 <= j < i ==> s@[j] != c,
        decreases n - i,
    {
        if s.get_char(i) == c {
            proof {
                lemma_first_index_unique(s@, c, i as int);
            }
            return i;
        }
        i = i + 1;
    }
    proof {
        assert(!has_char(s@, c));
    }
    n
}

/// Whether `c` occurs in `s`.
pub fn contains_char(s: &str, c: char) -> (r: bool)
    ensures
        r == has_char(s@, c),
{
    let i = find_char(s, c);
    proof {
        lemma_index_of_bounds(s@, c);
    }
    i < s.unicode_len()
}

/// The characters of `s` from `from` to `to`, as an owned string.
pub fn substring(s: &str, from: usize, to: usize) -> (r: String)
    requires
        from <= to <= s@.len(),
    ensures
        r@ == s@.subrange(from as int, to as int),
{
    s.substring_char(from, to).to_owned()
}

/// Appends one character.
#[verifier::external_body]
pub fn push_char(s: &mut String, c: char)
    ensures
        final(s)@ == old(s)@.push(c),
{
    s.push(c)
}

/// Concatenation of two strings.
pub fn concat(a: &str, b: &str) -> (r: String)
    ensures
        r@ == a@ + b@,
{
    let mut r = a.to_owned();
    r.append(b);
    r
}

/// A fresh string holding `s`.
pub fn owned(s: &str) -> (r: String)
    ensures
        r@ == s@,
{
    s.to_owned()
}

/// A copy of `s`.
pub fn copy_string(s: &String) -> (r: String)
    ensures
        r@ == s@,
{
    s.clone()
}

/// Whether `s` contains `pat` as a contiguous part.
pub open spec fn has_substring(s: Seq<char>, pat: Seq<char>) -> bool {
    exists|i: int| 0 <= i <= s.len() - pat.len() && #[trigger] s.subrange(i, i + pat.len()) == pat
}

/// Whether `pat` occurs in `s`.
pub fn contains_str(s: &str, pat: &str) -> (r: bool)
    ensures
        r == has_substring(s@, pat@),
{
    let n = s.unicode_len();
    let m = pat.unicode_len();
    if m > n {
        return false;
    }
    let mut i: usize = 0;
    while i <= n - m
        invariant
            n as int == s@.len(),
            m as int == pat@.len(),
            m <= n,
            0 <= i <= n - m + 1,
            forall|k: int| 0 <= k < i ==> #[trigger] s@.subrange(k, k + m) != pat@,
        decreases n - m + 1 - i,
    {
        let mut j: usize = 0;
        let mut same = true;
        while j < m
            invariant
                n as int == s@.len(),
                m as int == pat@.len(),
                m <= n,
                i <= n - m,
                0 <= j <= m,
                same == (forall|t: int| 0 <= t < j ==> s@[i + t] == pat@[t]),
            decreases m - j,
        {
            if s.get_char(i + j) != pat.get_char(j) {
                same = false;
            }
            j = j + 1;
        }
        if same {
            assert(s@.subrange(i as int, i + m) =~= pat@);
            return true;
        }
        assert(s@.subrange(i as int, i + m)[0] == s@[i as int]);
        assert(s@.subrange(i as int, i + m) != pat@) by {
            let t = choose|t: int| 0 <= t < m && s@[i + t] != pat@[t];
            assert(s@.subrange(i as int, i + m)[t] == s@[i + t]);
        }
        i = i + 1;
    }
    false
}

} // verus!
