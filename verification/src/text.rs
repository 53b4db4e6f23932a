//! Character-level helpers for the tag and name rules: equality, substring
//! search and literal replacement over `Seq<char>` views.

use vstd::prelude::*;
use vstd::std_specs::iter::IteratorSpec;

verus! {

broadcast use vstd::string::group_string_axioms;

/// `needle` stands in `hay` at offset `i`.
pub open spec fn occurs_at(hay: Seq<char>, needle: Seq<char>, i: int) -> bool {
    &&& 0 <= i
    &&& i + needle.len() <= hay.len()
    &&& hay.subrange(i, i + needle.len()) == needle
}

/// `needle` stands somewhere in `hay`.
pub open spec fn contains(hay: Seq<char>, needle: Seq<char>) -> bool {
    exists|i: int| occurs_at(hay, needle, i)
}

/// `hay` ends with `suffix`.
pub open spec fn ends_with(hay: Seq<char>, suffix: Seq<char>) -> bool {
    occurs_at(hay, suffix, hay.len() - suffix.len())
}

/// `i` is the offset of the leftmost occurrence of `needle` in `hay`.
pub open spec fn is_first_occurrence(hay: Seq<char>, needle: Seq<char>, i: int) -> bool {
    &&& occurs_at(hay, needle, i)
    &&& forall|j: int| 0 <= j < i ==> !occurs_at(hay, needle, j)
}

/// The offset of the leftmost occurrence of `needle` in `hay`; meaningful
/// where there is one.
pub open spec fn first_occurrence(hay: Seq<char>, needle: Seq<char>) -> int {
    choose|i: int| is_first_occurrence(hay, needle, i)
}

/// The index of the first `c` at or after `from`, or the length of `s` if
/// there is none.
pub open spec fn index_of_char(s: Seq<char>, c: char, from: int) -> int
    decreases s.len() - from,
{
    if from >= s.len() {
        s.len() as int
    } else if s[from] == c {
        from
    } else {
        index_of_char(s, c, from + 1)
    }
}

/// The part of `s` before its first `c`; all of `s` if it holds none.
pub open spec fn before(s: Seq<char>, c: char) -> Seq<char> {
    s.take(index_of_char(s, c, 0))
}

/// `s` from offset `from` on, with every occurrence of `pat` replaced by
/// `with`, the occurrences taken from left to right and never overlapping.
pub open spec fn replaced_from(s: Seq<char>, pat: Seq<char>, with: Seq<char>, from: int) -> Seq<char>
    decreases s.len() - from,
{
    if from >= s.len() || from < 0 {
        Seq::<char>::empty()
    } else if pat.len() > 0 && occurs_at(s, pat, from) {
        with + replaced_from(s, pat, with, from + pat.len())
    } else {
        seq![s[from]] + replaced_from(s, pat, with, from + 1)
    }
}

/// `s` with every occurrence of the non-empty `pat` replaced by `with`; an
/// empty `pat` occurs nowhere.
pub open spec fn replaced(s: Seq<char>, pat: Seq<char>, with: Seq<char>) -> Seq<char> {
    replaced_from(s, pat, with, 0)
}

/// White space: the characters that Unicode gives the property `White_Space`.
pub open spec fn is_whitespace(c: char) -> bool {
    c == '\u{9}' || c == '\u{A}' || c == '\u{B}' || c == '\u{C}' || c == '\u{D}' || c == ' ' || c
        == '\u{85}' || c == '\u{A0}' || c == '\u{1680}' || c == '\u{2000}' || c == '\u{2001}' || c
        == '\u{2002}' || c == '\u{2003}' || c == '\u{2004}' || c == '\u{2005}' || c == '\u{2006}'
        || c == '\u{2007}' || c == '\u{2008}' || c == '\u{2009}' || c == '\u{200A}' || c
        == '\u{2028}' || c == '\u{2029}' || c == '\u{202F}' || c == '\u{205F}' || c == '\u{3000}'
}

/// The index of the first character at or after `from` that is not white
/// space, or the length of `s`.
pub open spec fn leading(s: Seq<char>, from: int) -> int
    decreases s.len() - from,
{
    if from >= s.len() {
        s.len() as int
    } else if !is_whitespace(s[from]) {
        from
    } else {
        leading(s, from + 1)
    }
}

/// The end of the part of `s` before `to` once the white space at its end is
/// taken off.
pub open spec fn trailing(s: Seq<char>, to: int) -> int
    decreases to,
{
    if to <= 0 {
        0
    } else if !is_whitespace(s[to - 1]) {
        to
    } else {
        trailing(s, to - 1)
    }
}

/// `s` without the white space at its start and at its end.
pub open spec fn trimmed(s: Seq<char>) -> Seq<char> {
    if leading(s, 0) >= s.len() {
        Seq::<char>::empty()
    } else {
        s.subrange(leading(s, 0), trailing(s, s.len() as int))
    }
}

/// The pieces of `s` from offset `start` on that the occurrences of the
/// non-empty `pat` separate, the occurrences searched from offset `at` on,
/// from left to right.
pub open spec fn split_scan(s: Seq<char>, pat: Seq<char>, start: int, at: int) -> Seq<Seq<char>>
    decreases s.len() - at,
{
    if pat.len() == 0 || at < 0 || at + pat.len() > s.len() {
        seq![s.subrange(start, s.len() as int)]
    } else if occurs_at(s, pat, at) {
        seq![s.subrange(start, at)] + split_scan(s, pat, at + pat.len(), at + pat.len())
    } else {
        split_scan(s, pat, start, at + 1)
    }
}

/// The pieces of `s` that the occurrences of `pat` separate.
pub open spec fn split_on(s: Seq<char>, pat: Seq<char>) -> Seq<Seq<char>> {
    split_scan(s, pat, 0, 0)
}

/// A text that may be absent, as its characters.
pub open spec fn text_of(value: Option<String>) -> Option<Seq<char>> {
    match value {
        Some(s) => Some(s@),
        None => None,
    }
}

/// The texts of a sequence of character vectors.
pub open spec fn texts(pieces: Seq<Vec<char>>) -> Seq<Seq<char>> {
    pieces.map_values(|p: Vec<char>| p@)
}

/// Whether a character is white space.
pub fn is_space(c: char) -> (r: bool)
    ensures
        r == is_whitespace(c),
{
    c == '\u{9}' || c == '\u{A}' || c == '\u{B}' || c == '\u{C}' || c == '\u{D}' || c == ' ' || c
        == '\u{85}' || c == '\u{A0}' || c == '\u{1680}' || c == '\u{2000}' || c == '\u{2001}' || c
        == '\u{2002}' || c == '\u{2003}' || c == '\u{2004}' || c == '\u{2005}' || c == '\u{2006}'
        || c == '\u{2007}' || c == '\u{2008}' || c == '\u{2009}' || c == '\u{200A}' || c
        == '\u{2028}' || c == '\u{2029}' || c == '\u{202F}' || c == '\u{205F}' || c == '\u{3000}'
}

/// The characters of `s` from `from` up to, but not at, `to`.
pub fn slice(s: &Vec<char>, from: usize, to: usize) -> (r: Vec<char>)
    requires
        from <= to <= s@.len(),
    ensures
        r@ == s@.subrange(from as int, to as int),
{
    let mut r: Vec<char> = Vec::new();
    let mut i: usize = from;
    while i < to
        invariant
            from <= i <= to <= s@.len(),
            r@ == s@.subrange(from as int, i as int),
        decreases to - i,
    {
        r.push(s[i]);
        assert(r@ =~= s@.subrange(from as int, i + 1));
        i += 1;
    }
    r
}

/// `s` without the white space at its start and at its end.
pub fn trim(s: &Vec<char>) -> (r: Vec<char>)
    ensures
        r@ == trimmed(s@),
{
    let mut a: usize = 0;
    while a < s.len() && is_space(s[a])
        invariant
            a <= s@.len(),
            leading(s@, a as int) == leading(s@, 0),
        decreases s@.len() - a,
    {
        a += 1;
    }
    if a >= s.len() {
        return Vec::new();
    }
    let mut b: usize = s.len();
    while b > 0 && is_space(s[b - 1])
        invariant
            a < b <= s@.len(),
            !is_whitespace(s@[a as int]),
            trailing(s@, b as int) == trailing(s@, s@.len() as int),
        decreases b,
    {
        b -= 1;
    }
    slice(s, a, b)
}

/// The pieces of `s` that the occurrences of `pat` separate; `s` alone
/// where `pat` is empty.
pub fn split(s: &Vec<char>, pat: &Vec<char>) -> (pieces: Vec<Vec<char>>)
    ensures
        texts(pieces@) == split_on(s@, pat@),
        pieces@.len() >= 1,
{
    let mut pieces: Vec<Vec<char>> = Vec::new();
    if pat.len() == 0 {
        pieces.push(slice(s, 0, s.len()));
        assert(texts(pieces@) =~= seq![s@.subrange(0, s@.len() as int)]);
        return pieces;
    }
    let mut start: usize = 0;
    let mut at: usize = 0;
    loop
        invariant
            pat@.len() > 0,
            start <= at <= s@.len(),
            texts(pieces@) + split_scan(s@, pat@, start as int, at as int) == split_on(s@, pat@),
        decreases s@.len() - at,
    {
        let ghost before = pieces@;
        if pat.len() > s.len() - at {
            pieces.push(slice(s, start, s.len()));
            assert(texts(pieces@) =~= texts(before) + seq![
                s@.subrange(start as int, s@.len() as int),
            ]);
            return pieces;
        }
        if matches_at(s, pat, at) {
            pieces.push(slice(s, start, at));
            assert(texts(pieces@) =~= texts(before).push(s@.subrange(start as int, at as int)));
            assert(texts(before) + (seq![s@.subrange(start as int, at as int)] + split_scan(
                s@,
                pat@,
                at + pat@.len(),
                at + pat@.len(),
            )) =~= texts(pieces@) + split_scan(s@, pat@, at + pat@.len(), at + pat@.len()));
            at = at + pat.len();
            start = at;
        } else {
            at += 1;
        }
    }
}

/// There is at most one leftmost occurrence.
pub proof fn first_occurrence_is_unique(hay: Seq<char>, needle: Seq<char>, i: int)
    requires
        is_first_occurrence(hay, needle, i),
    ensures
        first_occurrence(hay, needle) == i,
        contains(hay, needle),
{
    let j = first_occurrence(hay, needle);
    assert(is_first_occurrence(hay, needle, j));
    assert(occurs_at(hay, needle, i));
    if j < i {
        assert(!occurs_at(hay, needle, j));
    }
    if i < j {
        assert(!occurs_at(hay, needle, i));
    }
}

/// `String::push`: the text afterwards is the text before with the character
/// appended.
#[verifier::external_body]
fn push_char(out: &mut String, c: char)
    ensures
        final(out)@ == old(out)@.push(c),
{
    out.push(c);
}

/// The text made of the given characters.
pub fn string_of(chars: &Vec<char>) -> (s: String)
    ensures
        s@ == chars@,
{
    let mut s = String::new();
    let mut i: usize = 0;
    while i < chars.len()
        invariant
            i <= chars@.len(),
            s@ == chars@.take(i as int),
        decreases chars@.len() - i,
    {
        push_char(&mut s, chars[i]);
        assert(s@ =~= chars@.take(i + 1));
        i += 1;
    }
    assert(s@ =~= chars@);
    s
}

/// The index of the first `c` in `s`, or the length of `s`.
pub fn position_of(s: &Vec<char>, c: char) -> (r: usize)
    ensures
        r == index_of_char(s@, c, 0),
        r <= s@.len(),
{
    let mut i: usize = 0;
    while i < s.len()
        invariant
            i <= s@.len(),
            index_of_char(s@, c, i as int) == index_of_char(s@, c, 0),
        decreases s@.len() - i,
    {
        if s[i] == c {
            return i;
        }
        i += 1;
    }
    i
}

/// `s` with every occurrence of `pat` replaced by `with`; `s` itself where
/// `pat` is empty.
pub fn replace_all(s: &Vec<char>, pat: &Vec<char>, with: &Vec<char>) -> (r: Vec<char>)
    ensures
        r@ == replaced(s@, pat@, with@),
{
    let mut r: Vec<char> = Vec::new();
    if pat.len() == 0 {
        let mut k: usize = 0;
        while k < s.len()
            invariant
                pat@.len() == 0,
                k <= s@.len(),
                r@ + replaced_from(s@, pat@, with@, k as int) == replaced(s@, pat@, with@),
            decreases s@.len() - k,
        {
            let ghost before = r@;
            r.push(s[k]);
            assert(r@ + replaced_from(s@, pat@, with@, k + 1) =~= before + (seq![s@[k as int]]
                + replaced_from(s@, pat@, with@, k + 1)));
            k += 1;
        }
        assert(r@ + Seq::<char>::empty() =~= r@);
        return r;
    }
    let mut i: usize = 0;
    while i < s.len()
        invariant
            pat@.len() > 0,
            i <= s@.len(),
            r@ + replaced_from(s@, pat@, with@, i as int) == replaced(s@, pat@, with@),
        decreases s@.len() - i,
    {
        let ghost before = r@;
        if matches_at(s, pat, i) {
            let mut k: usize = 0;
            while k < with.len()
                invariant
                    k <= with@.len(),
                    r@ == before + with@.take(k as int),
                decreases with@.len() - k,
            {
                r.push(with[k]);
                assert(r@ =~= before + with@.take(k + 1));
                k += 1;
            }
            assert(with@.take(with@.len() as int) =~= with@);
            assert((before + with@) + replaced_from(s@, pat@, with@, i + pat@.len()) =~= before + (
            with@ + replaced_from(s@, pat@, with@, i + pat@.len())));
            i += pat.len();
        } else {
            r.push(s[i]);
            assert(r@ + replaced_from(s@, pat@, with@, i + 1) =~= before + (seq![s@[i as int]]
                + replaced_from(s@, pat@, with@, i + 1)));
            i += 1;
        }
    }
    assert(r@ + Seq::<char>::empty() =~= r@);
    r
}

/// The characters of `s`, in order.
pub fn chars_of(s: &str) -> (v: Vec<char>)
    ensures
        v@ == s@,
{
    let mut v: Vec<char> = Vec::new();
    let mut it = s.chars();
    loop
        invariant
            it.remaining() == s@.skip(v@.len() as int),
            v@ == s@.take(v@.len() as int),
            v@.len() <= s@.len(),
        decreases s@.len() - v@.len(),
    {
        let ghost before = v@;
        match it.next() {
            Some(c) => {
                v.push(c);
                assert(v@ =~= s@.take(v@.len() as int));
                assert(it.remaining() =~= s@.skip(v@.len() as int));
            },
            None => {
                assert(s@.skip(v@.len() as int).len() == 0);
                assert(v@ =~= s@);
                return v;
            },
        }
    }
}

/// Whether two texts hold the same characters.
pub fn same_text(a: &str, b: &str) -> (r: bool)
    ensures
        r == (a@ == b@),
{
    let x = chars_of(a);
    let y = chars_of(b);
    same_chars(&x, &y)
}

pub fn same_chars(a: &Vec<char>, b: &Vec<char>) -> (r: bool)
    ensures
        r == (a@ == b@),
{
    if a.len() != b.len() {
        return false;
    }
    let mut i: usize = 0;
    while i < a.len()
        invariant
            a@.len() == b@.len(),
            i <= a@.len(),
            forall|j: int| 0 <= j < i ==> a@[j] == b@[j],
        decreases a@.len() - i,
    {
        if a[i] != b[i] {
            return false;
        }
        i += 1;
    }
    assert(a@ =~= b@);
    true
}

/// Whether `needle` stands in `hay` at offset `i`.
pub fn matches_at(hay: &Vec<char>, needle: &Vec<char>, i: usize) -> (r: bool)
    ensures
        r == occurs_at(hay@, needle@, i as int),
{
    if needle.len() > hay.len() || i > hay.len() - needle.len() {
        return false;
    }
    let mut k: usize = 0;
    while k < needle.len()
        invariant
            i + needle@.len() <= hay@.len() <= usize::MAX,
            k <= needle@.len(),
            forall|j: int| 0 <= j < k ==> hay@[i + j] == needle@[j],
        decreases needle@.len() - k,
    {
        if hay[i + k] != needle[k] {
            assert(hay@.subrange(i as int, i + needle@.len())[k as int] != needle@[k as int]);
            return false;
        }
        k += 1;
    }
    assert(hay@.subrange(i as int, i + needle@.len()) =~= needle@);
    true
}

/// Offset of the leftmost occurrence of `needle` in `hay`, if there is one.
pub fn find(hay: &Vec<char>, needle: &Vec<char>) -> (r: Option<usize>)
    ensures
        match r {
            Some(i) => is_first_occurrence(hay@, needle@, i as int),
            None => !contains(hay@, needle@),
        },
{
    if needle.len() > hay.len() {
        return None;
    }
    let last: usize = hay.len() - needle.len();
    let mut i: usize = 0;
    loop
        invariant
            last == hay@.len() - needle@.len(),
            i <= last,
            forall|j: int| 0 <= j < i ==> !occurs_at(hay@, needle@, j),
        decreases last - i,
    {
        if matches_at(hay, needle, i) {
            return Some(i);
        }
        if i == last {
            return None;
        }
        i += 1;
    }
}

} // verus!
