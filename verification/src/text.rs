//! Character-level operations on strings, stated over sequences of characters.
use vstd::prelude::*;

verus! {

/// `String::push` appends one character to the end of the string.
pub assume_specification[ String::push ](text: &mut String, c: char)
    ensures
        final(text)@ == old(text)@.push(c),
;

/// `std::str::from_utf8` accepts exactly the well-formed UTF-8 byte sequences and
/// hands back the characters that they encode.
#[verifier::external_body]
pub(crate) fn utf8_text(bytes: &[u8]) -> (r: Option<String>)
    ensures
        match r {
            Some(text) => vstd::utf8::valid_utf8(bytes@) && text@ == vstd::utf8::decode_utf8(bytes@),
            None => !vstd::utf8::valid_utf8(bytes@),
        },
{
    std::str::from_utf8(bytes).ok().map(str::to_owned)
}

/// The text that a byte sequence encodes in UTF-8, if it is well-formed.
pub open spec fn utf8_decoded(bytes: Seq<u8>) -> Option<Seq<char>> {
    if vstd::utf8::valid_utf8(bytes) {
        Some(vstd::utf8::decode_utf8(bytes))
    } else {
        None
    }
}

/// Index of the first `c` in `s`, or the length of `s` if there is none.
pub open spec fn position(s: Seq<char>, c: char) -> int
    decreases s.len(),
{
    if s.len() == 0 || s[0] == c {
        0
    } else {
        1 + position(s.skip(1), c)
    }
}

/// `needle` occurs somewhere in `s`.
pub open spec fn occurs_in(s: Seq<char>, needle: Seq<char>) -> bool {
    exists|i: int| occurs_at(s, needle, i)
}

/// `needle` occurs in `s` at index `i`.
pub open spec fn occurs_at(s: Seq<char>, needle: Seq<char>, i: int) -> bool {
    0 <= i <= s.len() - needle.len() && s.subrange(i, i + needle.len()) == needle
}

/// The pieces of `s` between the separators `c`, in order; never empty.
pub open spec fn pieces(s: Seq<char>, c: char) -> Seq<Seq<char>>
    decreases s.len(),
    via pieces_decreases
{
    let i = position(s, c);
    if i < s.len() {
        seq![s.take(i)] + pieces(s.skip(i + 1), c)
    } else {
        seq![s]
    }
}

#[via_fn]
proof fn pieces_decreases(s: Seq<char>, c: char) {
    lemma_position(s, c);
}

/// `position` finds the first occurrence.
pub proof fn lemma_position(s: Seq<char>, c: char)
    ensures
        0 <= position(s, c) <= s.len(),
        position(s, c) < s.len() ==> s[position(s, c)] == c,
        forall|j: int| 0 <= j < position(s, c) ==> s[j] != c,
    decreases s.len(),
{
    if s.len() > 0 && s[0] != c {
        lemma_position(s.skip(1), c);
        assert forall|j: int| 0 <= j < position(s, c) implies s[j] != c by {
            if j > 0 {
                assert(s.skip(1)[j - 1] == s[j]);
            }
        }
    }
}

/// Only the first occurrence satisfies the defining properties of `position`.
pub proof fn lemma_position_unique(s: Seq<char>, c: char, i: int)
    requires
        0 <= i <= s.len(),
        i < s.len() ==> s[i] == c,
        forall|j: int| 0 <= j < i ==> s[j] != c,
    ensures
        position(s, c) == i,
{
    lemma_position(s, c);
}

/// The ASCII letters and digits.
pub open spec fn is_ascii_alphanumeric(c: char) -> bool {
    ('0' <= c && c <= '9') || ('A' <= c && c <= 'Z') || ('a' <= c && c <= 'z')
}

/// The characters of `text`.
pub fn chars_of(text: &str) -> (r: Vec<char>)
    ensures
        r@ == text@,
{
    let mut r: Vec<char> = Vec::new();
    for c in it: text.chars()
        invariant
            it.seq() == text@,
            r@ == text@.take(it.index() as int),
    {
        r.push(c);
        assert(text@.take(it.index() as int + 1) == text@.take(it.index() as int).push(c));
    }
    assert(text@.take(text@.len() as int) == text@);
    r
}

/// The text made of `chars[from..to]`.
pub fn text_of(chars: &Vec<char>, from: usize, to: usize) -> (r: String)
    requires
        from <= to <= chars@.len(),
    ensures
        r@ == chars@.subrange(from as int, to as int),
{
    let mut r = String::new();
    let mut i: usize = from;
    while i < to
        invariant
            from <= i <= to <= chars@.len(),
            r@ == chars@.subrange(from as int, i as int),
        decreases to - i,
    {
        r.push(chars[i]);
        i = i + 1;
        assert(chars@.subrange(from as int, i as int) == chars@.subrange(from as int, i - 1).push(
            chars@[i - 1],
        ));
    }
    r
}

/// Whether two texts are the same.
pub fn same_text(a: &str, b: &str) -> (r: bool)
    ensures
        r == (a@ == b@),
{
    let a = a.to_owned();
    let b = b.to_owned();
    a == b
}

/// Whether `text` begins with `prefix`.
pub fn starts_with(text: &str, prefix: &str) -> (r: bool)
    ensures
        r == prefix@.is_prefix_of(text@),
{
    let t = chars_of(text);
    let p = chars_of(prefix);
    if p.len() > t.len() {
        return false;
    }
    let mut i: usize = 0;
    while i < p.len()
        invariant
            i <= p@.len() <= t@.len(),
            t@ == text@,
            p@ == prefix@,
            forall|j: int| 0 <= j < i ==> p@[j] == t@[j],
        decreases p@.len() - i,
    {
        if p[i] != t[i] {
            assert(prefix@[i as int] != text@.subrange(0, prefix@.len() as int)[i as int]);
            return false;
        }
        i = i + 1;
    }
    assert(prefix@ == text@.subrange(0, prefix@.len() as int));
    true
}

/// Whether `needle` occurs in `text`.
pub fn contains_text(text: &str, needle: &str) -> (r: bool)
    ensures
        r == occurs_in(text@, needle@),
{
    let t = chars_of(text);
    let n = chars_of(needle);
    if n.len() > t.len() {
        return false;
    }
    let last: usize = t.len() - n.len();
    let mut i: usize = 0;
    while i <= last
        invariant
            i <= last + 1,
            t@.len() <= usize::MAX,
            last == t@.len() - n@.len(),
            t@ == text@,
            n@ == needle@,
            forall|k: int| 0 <= k < i ==> !occurs_at(text@, needle@, k),
        decreases last + 1 - i,
    {
        let mut j: usize = 0;
        while j < n.len() && t[i + j] == n[j]
            invariant
                i <= last,
                j <= n@.len(),
                t@.len() <= usize::MAX,
                last == t@.len() - n@.len(),
                t@ == text@,
                n@ == needle@,
                forall|k: int| 0 <= k < j ==> t@[i + k] == n@[k],
            decreases n@.len() - j,
        {
            j = j + 1;
        }
        if j == n.len() {
            assert(text@.subrange(i as int, i + needle@.len()) == needle@);
            assert(occurs_at(text@, needle@, i as int));
            return true;
        }
        assert(text@.subrange(i as int, i + needle@.len())[j as int] != needle@[j as int]);
        if i == last {
            return false;
        }
        i = i + 1;
    }
    false
}

/// Index of the first `c` in `chars`, or the length of `chars` if there is none.
fn find_char(chars: &Vec<char>, c: char) -> (r: usize)
    ensures
        r == position(chars@, c),
        r <= chars@.len(),
{
    let mut i: usize = 0;
    while i < chars.len() && chars[i] != c
        invariant
            i <= chars@.len(),
            forall|j: int| 0 <= j < i ==> chars@[j] != c,
        decreases chars@.len() - i,
    {
        i = i + 1;
    }
    proof {
        lemma_position_unique(chars@, c, i as int);
    }
    i
}

/// Splits `text` at its first `sep`, if it has one.
pub fn split_once(text: &str, sep: char) -> (r: Option<(String, String)>)
    ensures
        match r {
            Some(halves) => {
                &&& position(text@, sep) < text@.len()
                &&& halves.0@ == text@.take(position(text@, sep))
                &&& halves.1@ == text@.skip(position(text@, sep) + 1)
            },
            None => position(text@, sep) == text@.len(),
        },
{
    let chars = chars_of(text);
    let i = find_char(&chars, sep);
    if i < chars.len() {
        Some((text_of(&chars, 0, i), text_of(&chars, i + 1, chars.len())))
    } else {
        None
    }
}

/// Splits `text` at every `sep`.
pub fn split(text: &str, sep: char) -> (r: Vec<String>)
    ensures
        r@.map_values(|s: String| s@) == pieces(text@, sep),
        r@.len() > 0,
{
    let mut r: Vec<String> = Vec::new();
    let mut rest = text.to_owned();
    loop
        invariant
            r@.map_values(|s: String| s@) + pieces(rest@, sep) == pieces(text@, sep),
        decreases rest@.len(),
    {
        let ghost before = r@.map_values(|s: String| s@);
        match split_once(rest.as_str(), sep) {
            Some((head, tail)) => {
                proof {
                    lemma_position(rest@, sep);
                    assert(r@.push(head).map_values(|s: String| s@) == before.push(head@));
                    assert(before + (seq![head@] + pieces(tail@, sep)) == before.push(head@)
                        + pieces(tail@, sep));
                }
                r.push(head);
                rest = tail;
            },
            None => {
                proof {
                    assert(r@.push(rest).map_values(|s: String| s@) == before + seq![rest@]);
                }
                r.push(rest);
                return r;
            },
        }
    }
}

/// Replaces every `from` in `text` by `to`.
pub fn replace_char(text: &str, from: char, to: char) -> (r: String)
    ensures
        r@ == text@.map_values(
            |c: char|
                if c == from {
                    to
                } else {
                    c
                },
        ),
{
    let chars = chars_of(text);
    let mut r = String::new();
    let mut i: usize = 0;
    while i < chars.len()
        invariant
            i <= chars@.len(),
            r@.len() == i,
            forall|j: int|
                0 <= j < i ==> r@[j] == (if chars@[j] == from {
                    to
                } else {
                    chars@[j]
                }),
        decreases chars@.len() - i,
    {
        if chars[i] == from {
            r.push(to);
        } else {
            r.push(chars[i]);
        }
        i = i + 1;
    }
    assert(r@ =~= text@.map_values(
        |c: char|
            if c == from {
                to
            } else {
                c
            },
    ));
    r
}

/// The ASCII letters and digits of `text`, in order.
pub fn keep_ascii_alphanumeric(text: &str) -> (r: String)
    ensures
        r@ == text@.filter(|c: char| is_ascii_alphanumeric(c)),
{
    let chars = chars_of(text);
    let ghost keep = |c: char| is_ascii_alphanumeric(c);
    let mut r = String::new();
    let mut i: usize = 0;
    proof {
        reveal(Seq::filter);
    }
    while i < chars.len()
        invariant
            i <= chars@.len(),
            keep == (|c: char| is_ascii_alphanumeric(c)),
            r@ == chars@.take(i as int).filter(keep),
        decreases chars@.len() - i,
    {
        let c = chars[i];
        proof {
            reveal(Seq::filter);
            assert(chars@.take(i + 1).drop_last() == chars@.take(i as int));
        }
        if ('0' <= c && c <= '9') || ('A' <= c && c <= 'Z') || ('a' <= c && c <= 'z') {
            r.push(c);
        }
        i = i + 1;
    }
    assert(chars@.take(chars@.len() as int) == chars@);
    r
}

/// `first` followed by `second`.
pub fn join_texts(first: &str, second: &str) -> (r: String)
    ensures
        r@ == first@ + second@,
{
    let mut r = first.to_owned();
    r.append(second);
    r
}

/// A text without separators is one piece; what stands before the first separator is a piece, and
/// the rest is split alike.
pub proof fn lemma_pieces(first: Seq<char>, c: char, rest: Seq<char>)
    requires
        !first.contains(c),
    ensures
        pieces(first, c) == seq![first],
        pieces(first + seq![c] + rest, c) == seq![first] + pieces(rest, c),
{
    let whole = first + seq![c] + rest;
    let n = first.len() as int;
    assert forall|j: int| 0 <= j < n implies first[j] != c by {
        assert(first.contains(first[j]) || first[j] != c);
    }
    lemma_position_unique(first, c, n);
    assert(whole[n] == c);
    assert forall|j: int| 0 <= j < n implies whole[j] != c by {
        assert(whole[j] == first[j]);
    }
    lemma_position_unique(whole, c, n);
    assert(whole.take(n) =~= first);
    assert(whole.skip(n + 1) =~= rest);
}

/// Exactly the digits and letters of ASCII count, by their codes.
pub proof fn lemma_ascii_alphanumeric(c: char)
    ensures
        is_ascii_alphanumeric(c) <==> (48 <= c as int <= 57 || 65 <= c as int <= 90 || 97 <= c as int
            <= 122),
{
}

} // verus!
