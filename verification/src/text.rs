//! Text primitives: comparing strings, cutting a byte range out of a source
//! text, trimming white space and recognising documentation comments.
//!
//! Offsets into a source text are byte offsets into its UTF-8 encoding, while
//! the mathematical view of a string is its sequence of characters. The
//! functions here bridge the two.

use vstd::prelude::*;
use vstd::string::*;
use vstd::utf8::*;

verus! {

/// The characters of the byte range `start..end` of the UTF-8 encoding of
/// `code`, when both ends fall on character boundaries of the text; nothing
/// otherwise.
pub open spec fn slice_text(code: Seq<char>, start: int, end: int) -> Option<Seq<char>> {
    let bytes = encode_utf8(code);
    if start <= end && is_char_boundary(bytes, start) && is_char_boundary(bytes, end) {
        Some(decode_utf8(bytes.subrange(start, end)))
    } else {
        None
    }
}

/// The text of an optional reading, with the empty text standing in for a
/// reading that failed.
pub open spec fn text_or_empty(text: Option<Seq<char>>) -> Seq<char> {
    match text {
        Some(t) => t,
        None => Seq::empty(),
    }
}

/// Unicode's `White_Space` property.
pub open spec fn is_white_space(c: char) -> bool {
    let u = c as u32;
    ||| 0x09 <= u <= 0x0D
    ||| u == 0x20
    ||| u == 0x85
    ||| u == 0xA0
    ||| u == 0x1680
    ||| 0x2000 <= u <= 0x200A
    ||| u == 0x2028
    ||| u == 0x2029
    ||| u == 0x202F
    ||| u == 0x205F
    ||| u == 0x3000
}

/// How many white-space characters `s` begins with.
pub open spec fn leading_white_space(s: Seq<char>) -> nat
    decreases s.len(),
{
    if s.len() > 0 && is_white_space(s.first()) {
        1 + leading_white_space(s.drop_first())
    } else {
        0
    }
}

/// How many white-space characters `s` ends with.
pub open spec fn trailing_white_space(s: Seq<char>) -> nat
    decreases s.len(),
{
    if s.len() > 0 && is_white_space(s.last()) {
        1 + trailing_white_space(s.drop_last())
    } else {
        0
    }
}

/// `s` without its leading and trailing white space.
pub open spec fn trimmed(s: Seq<char>) -> Seq<char> {
    let rest = s.skip(leading_white_space(s) as int);
    rest.take(rest.len() - trailing_white_space(rest))
}

/// Whether `s` begins with the three slashes of an outer documentation line.
pub open spec fn is_doc_line(s: Seq<char>) -> bool {
    s.len() >= 3 && s[0] == '/' && s[1] == '/' && s[2] == '/'
}

/// A prefix of white space followed by the end or by a character that is not
/// white space is the whole leading white space.
pub proof fn lemma_leading_white_space(s: Seq<char>, n: int)
    requires
        0 <= n <= s.len(),
        forall|j: int| 0 <= j < n ==> is_white_space(#[trigger] s[j]),
        n == s.len() || !is_white_space(s[n]),
    ensures
        leading_white_space(s) == n,
    decreases s.len(),
{
    if n > 0 {
        let rest = s.drop_first();
        assert forall|j: int| 0 <= j < n - 1 implies is_white_space(#[trigger] rest[j]) by {
            assert(rest[j] == s[j + 1]);
        }
        lemma_leading_white_space(rest, n - 1);
    }
}

/// A suffix of white space preceded by the start or by a character that is
/// not white space is the whole trailing white space.
pub proof fn lemma_trailing_white_space(s: Seq<char>, n: int)
    requires
        0 <= n <= s.len(),
        forall|j: int| s.len() - n <= j < s.len() ==> is_white_space(#[trigger] s[j]),
        n == s.len() || !is_white_space(s[s.len() - n - 1]),
    ensures
        trailing_white_space(s) == n,
    decreases s.len(),
{
    if n > 0 {
        let rest = s.drop_last();
        assert forall|j: int| rest.len() - (n - 1) <= j < rest.len() implies is_white_space(
            #[trigger] rest[j],
        ) by {
            assert(rest[j] == s[j]);
        }
        lemma_trailing_white_space(rest, n - 1);
    }
}

/// A boundary of a text that lies inside one of its prefixes, the prefix
/// itself ending on a boundary, is a boundary of that prefix.
proof fn lemma_boundary_in_prefix(bytes: Seq<u8>, start: int, end: int)
    requires
        valid_utf8(bytes),
        valid_utf8(bytes.subrange(0, end)),
        0 <= start <= end <= bytes.len(),
        is_char_boundary(bytes, start),
    ensures
        is_char_boundary(bytes.subrange(0, end), start),
{
    let head = bytes.subrange(0, end);
    if start == end {
        is_char_boundary_start_end_of_seq(head);
    } else {
        is_char_boundary_iff_not_is_continuation_byte(bytes, start);
        is_char_boundary_iff_not_is_continuation_byte(head, start);
    }
}

/// Whether two strings hold the same characters.
pub fn str_eq(a: &str, b: &str) -> (same: bool)
    ensures
        same == (a@ == b@),
{
    broadcast use encode_utf8_decode_utf8;

    let x = a.as_bytes();
    let y = b.as_bytes();
    if x.len() != y.len() {
        return false;
    }
    let mut i: usize = 0;
    while i < x.len()
        invariant
            x@ == a.spec_bytes(),
            y@ == b.spec_bytes(),
            x@.len() == y@.len(),
            i <= x@.len(),
            forall|j: int| 0 <= j < i ==> x@[j] == y@[j],
        decreases x@.len() - i,
    {
        if x[i] != y[i] {
            return false;
        }
        i = i + 1;
    }
    assert(x@ =~= y@);
    assert(decode_utf8(encode_utf8(a@)) == a@);
    assert(decode_utf8(encode_utf8(b@)) == b@);
    true
}

/// Cuts the byte range `start..end` out of `code`.
///
/// The range is read only when it lies inside the text and both of its ends
/// are character boundaries.
pub fn read_text(code: &str, start: usize, end: usize) -> (text: Option<String>)
    ensures
        text.deep_view() == slice_text(code@, start as int, end as int),
{
    broadcast use {encode_utf8_decode_utf8, encode_utf8_valid_utf8};

    if start <= end && code.is_char_boundary(start) && code.is_char_boundary(end) {
        let (head, _) = code.split_at(end);
        proof {
            let bytes = code.spec_bytes();
            assert(valid_utf8(bytes));
            assert(end <= bytes.len()) by {
                reveal_with_fuel(is_char_boundary, 1);
            }
            assert(head.spec_bytes() == bytes.subrange(0, end as int));
            assert(valid_utf8(head.spec_bytes()));
            lemma_boundary_in_prefix(bytes, start as int, end as int);
        }
        let (_, middle) = head.split_at(start);
        let text = middle.to_owned();
        proof {
            let bytes = code.spec_bytes();
            assert(middle.spec_bytes() =~= bytes.subrange(start as int, end as int));
            assert(decode_utf8(encode_utf8(middle@)) == middle@);
        }
        Some(text)
    } else {
        None
    }
}

/// Whether `c` is white space.
pub fn char_is_white_space(c: char) -> (r: bool)
    ensures
        r == is_white_space(c),
{
    let u: u32 = c as u32;
    (0x09 <= u && u <= 0x0D) || u == 0x20 || u == 0x85 || u == 0xA0 || u == 0x1680 || (0x2000 <= u
        && u <= 0x200A) || u == 0x2028 || u == 0x2029 || u == 0x202F || u == 0x205F || u == 0x3000
}

/// `s` without its leading and trailing white space.
pub fn trim(s: &str) -> (out: String)
    ensures
        out@ == trimmed(s@),
{
    let n = s.unicode_len();
    let mut from: usize = 0;
    while from < n && char_is_white_space(s.get_char(from))
        invariant
            n == s@.len(),
            from <= n,
            forall|j: int| 0 <= j < from ==> is_white_space(#[trigger] s@[j]),
        decreases n - from,
    {
        from = from + 1;
    }
    proof {
        lemma_leading_white_space(s@, from as int);
    }
    let ghost rest = s@.skip(from as int);
    let mut to: usize = n;
    while to > from && char_is_white_space(s.get_char(to - 1))
        invariant
            n == s@.len(),
            from <= to <= n,
            forall|j: int| to <= j < n ==> is_white_space(#[trigger] s@[j]),
        decreases to,
    {
        to = to - 1;
    }
    proof {
        assert forall|j: int| rest.len() - (n - to) <= j < rest.len() implies is_white_space(
            #[trigger] rest[j],
        ) by {
            assert(rest[j] == s@[j + from]);
        }
        if to > from {
            assert(rest[rest.len() - (n - to) - 1] == s@[to - 1]);
        }
        lemma_trailing_white_space(rest, n - to);
        assert(s@.subrange(from as int, to as int) =~= rest.take(rest.len() - (n - to)));
    }
    s.substring_char(from, to).to_owned()
}

/// Whether `s` begins with the three slashes of an outer documentation line.
pub fn starts_doc_line(s: &str) -> (r: bool)
    ensures
        r == is_doc_line(s@),
{
    s.unicode_len() >= 3 && s.get_char(0) == '/' && s.get_char(1) == '/' && s.get_char(2) == '/'
}

} // verus!
