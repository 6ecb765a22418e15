//! Scanning and rewriting of identifiers and templates.

use vstd::prelude::*;
use vstd::string::*;
use crate::text::chars_of;

verus! {

/// The upper-case form of an ASCII lower-case letter; any other character is
/// left as it is.
pub open spec fn ascii_upper(c: char) -> char {
    if 'a' <= c && c <= 'z' {
        ((c as u8 - 32) as u8) as char
    } else {
        c
    }
}

/// The lower-case form of an ASCII upper-case letter; any other character is
/// left as it is.
pub open spec fn ascii_lower(c: char) -> char {
    if 'A' <= c && c <= 'Z' {
        ((c as u8 + 32) as u8) as char
    } else {
        c
    }
}

/// Puts an ASCII letter in upper case.
pub fn to_upper(c: char) -> (r: char)
    ensures
        r == ascii_upper(c),
{
    if c >= 'a' && c <= 'z' {
        ((c as u8) - 32) as char
    } else {
        c
    }
}

/// Puts an ASCII letter in lower case.
pub fn to_lower(c: char) -> (r: char)
    ensures
        r == ascii_lower(c),
{
    if c >= 'A' && c <= 'Z' {
        ((c as u8) + 32) as char
    } else {
        c
    }
}

/// The text with every ASCII upper-case letter replaced by its lower-case form.
pub open spec fn lower_text(s: Seq<char>) -> Seq<char> {
    Seq::new(s.len(), |i: int| ascii_lower(s[i]))
}

/// Whether two texts are equal once ASCII letter case is ignored.
pub fn equals_ignoring_case(a: &str, b: &str) -> (r: bool)
    ensures
        r == (lower_text(a@) == lower_text(b@)),
{
    let left = chars_of(a);
    let right = chars_of(b);
    if left.len() != right.len() {
        assert(lower_text(a@).len() != lower_text(b@).len());
        return false;
    }
    let mut i: usize = 0;
    while i < left.len()
        invariant
            i <= left.len(),
            left.len() == right.len(),
            left@ == a@,
            right@ == b@,
            forall|k: int| 0 <= k < i ==> ascii_lower(left@[k]) == ascii_lower(right@[k]),
        decreases left.len() - i,
    {
        if to_lower(left[i]) != to_lower(right[i]) {
            assert(lower_text(a@)[i as int] != lower_text(b@)[i as int]);
            return false;
        }
        i += 1;
    }
    assert(lower_text(a@) =~= lower_text(b@));
    true
}

/// Camel case of the rest of an identifier: underscores are dropped and the
/// first character after an underscore (or at the start, where `at_start`
/// holds) is put in upper case.
pub open spec fn camel_from(s: Seq<char>, at_start: bool) -> Seq<char>
    decreases s.len(),
{
    if s.len() == 0 {
        Seq::empty()
    } else if s[0] == '_' {
        camel_from(s.skip(1), true)
    } else {
        seq![if at_start { ascii_upper(s[0]) } else { s[0] }] + camel_from(s.skip(1), false)
    }
}

/// The camel-case form of a snake-case identifier: the parts between
/// underscores, each non-empty part with its first character in upper case,
/// written without separators.
pub open spec fn camel_case_text(s: Seq<char>) -> Seq<char> {
    camel_from(s, true)
}

/// Turns a snake-case identifier into camel case.
pub fn to_camel_case(s: &str) -> (r: String)
    ensures
        r@ == camel_case_text(s@),
{
    let chars = chars_of(s);
    let mut out = String::new();
    let mut at_start = true;
    let mut i: usize = 0;
    assert(chars@.skip(0) =~= chars@);
    while i < chars.len()
        invariant
            i <= chars.len(),
            chars@ == s@,
            out@ + camel_from(chars@.skip(i as int), at_start) == camel_case_text(s@),
        decreases chars.len() - i,
    {
        let c = chars[i];
        proof {
            assert(chars@.skip(i as int)[0] == c);
            assert(chars@.skip(i as int).skip(1) =~= chars@.skip(i + 1));
        }
        let ghost before = out@;
        if c == '_' {
            at_start = true;
        } else {
            let shown = if at_start { to_upper(c) } else { c };
            out.push(shown);
            assert((before + seq![shown]) + camel_from(chars@.skip(i + 1), false) =~= before + (
            seq![shown] + camel_from(chars@.skip(i + 1), false)));
            assert(before.push(shown) =~= before + seq![shown]);
            at_start = false;
        }
        i += 1;
    }
    assert(out@ + Seq::<char>::empty() =~= out@);
    out
}

/// The text with every hyphen replaced by an underscore.
pub open spec fn underscored_text(s: Seq<char>) -> Seq<char> {
    Seq::new(s.len(), |i: int| if s[i] == '-' { '_' } else { s[i] })
}

/// Replaces every hyphen by an underscore.
pub fn hyphens_to_underscores(s: &str) -> (r: String)
    ensures
        r@ == underscored_text(s@),
{
    let chars = chars_of(s);
    let mut out = String::new();
    let mut i: usize = 0;
    while i < chars.len()
        invariant
            i <= chars.len(),
            chars@ == s@,
            out@ == underscored_text(s@).take(i as int),
        decreases chars.len() - i,
    {
        let c = chars[i];
        out.push(if c == '-' { '_' } else { c });
        i += 1;
        assert(out@ =~= underscored_text(s@).take(i as int));
    }
    assert(underscored_text(s@).take(i as int) =~= underscored_text(s@));
    out
}

/// The part of `s` before the first occurrence of `sep`; all of `s` where
/// `sep` does not occur.
pub open spec fn head_segment(s: Seq<char>, sep: char) -> Seq<char>
    decreases s.len(),
{
    if s.len() == 0 || s[0] == sep {
        Seq::empty()
    } else {
        seq![s[0]] + head_segment(s.skip(1), sep)
    }
}

/// Cuts `s` before the first occurrence of `sep`.
pub fn first_segment(s: &str, sep: char) -> (r: String)
    ensures
        r@ == head_segment(s@, sep),
{
    let chars = chars_of(s);
    let mut out = String::new();
    let mut i: usize = 0;
    assert(chars@.skip(0) =~= chars@);
    while i < chars.len() && chars[i] != sep
        invariant
            i <= chars.len(),
            chars@ == s@,
            out@ + head_segment(chars@.skip(i as int), sep) == head_segment(s@, sep),
        decreases chars.len() - i,
    {
        let c = chars[i];
        let ghost before = out@;
        proof {
            assert(chars@.skip(i as int)[0] == c);
            assert(chars@.skip(i as int).skip(1) =~= chars@.skip(i + 1));
            assert((before + seq![c]) + head_segment(chars@.skip(i + 1), sep) =~= before + (seq![c]
                + head_segment(chars@.skip(i + 1), sep)));
            assert(before.push(c) =~= before + seq![c]);
        }
        out.push(c);
        i += 1;
    }
    proof {
        if i < chars.len() {
            assert(chars@.skip(i as int)[0] == sep);
        }
        assert(out@ + Seq::<char>::empty() =~= out@);
    }
    out
}

/// `text` with every occurrence of `marker` replaced by `value`, the
/// occurrences taken from left to right and not overlapping. An empty marker
/// occurs nowhere.
pub open spec fn substituted_text(text: Seq<char>, marker: Seq<char>, value: Seq<char>) -> Seq<
    char,
>
    decreases text.len(),
{
    if marker.len() == 0 || text.len() < marker.len() {
        text
    } else if text.take(marker.len() as int) == marker {
        value + substituted_text(text.skip(marker.len() as int), marker, value)
    } else {
        seq![text[0]] + substituted_text(text.skip(1), marker, value)
    }
}

fn occurs_at(text: &Vec<char>, at: usize, marker: &Vec<char>) -> (r: bool)
    requires
        at <= text.len(),
    ensures
        r == (marker.len() <= text.len() - at && text@.skip(at as int).take(marker.len() as int)
            == marker@),
{
    if marker.len() > text.len() - at {
        return false;
    }
    let mut k: usize = 0;
    while k < marker.len()
        invariant
            k <= marker.len(),
            at <= text.len(),
            marker.len() <= text.len() - at,
            forall|j: int| 0 <= j < k ==> text@[at + j] == marker@[j],
        decreases marker.len() - k,
    {
        if text[at + k] != marker[k] {
            assert(text@.skip(at as int).take(marker.len() as int)[k as int] != marker@[k as int]);
            return false;
        }
        k += 1;
    }
    assert(text@.skip(at as int).take(marker.len() as int) =~= marker@);
    true
}

/// Replaces every occurrence of `marker` in `text` by `value`.
pub fn substitute(text: &str, marker: &str, value: &str) -> (r: String)
    ensures
        r@ == substituted_text(text@, marker@, value@),
{
    let chars = chars_of(text);
    let pattern = chars_of(marker);
    let mut out = String::new();
    let mut i: usize = 0;
    assert(chars@.skip(0) =~= chars@);
    while i < chars.len()
        invariant
            i <= chars.len(),
            chars@ == text@,
            pattern@ == marker@,
            out@ + substituted_text(chars@.skip(i as int), marker@, value@) == substituted_text(
                text@,
                marker@,
                value@,
            ),
        decreases chars.len() - i,
    {
        let ghost before = out@;
        let ghost rest = chars@.skip(i as int);
        if pattern.len() > 0 && occurs_at(&chars, i, &pattern) {
            out.append(value);
            proof {
                let m = pattern.len() as int;
                assert(rest.skip(m) =~= chars@.skip(i + m));
                assert((before + value@) + substituted_text(chars@.skip(i + m), marker@, value@)
                    =~= before + (value@ + substituted_text(
                    chars@.skip(i + m),
                    marker@,
                    value@,
                )));
            }
            i += pattern.len();
        } else {
            let c = chars[i];
            out.push(c);
            proof {
                assert(rest[0] == c);
                assert(rest.skip(1) =~= chars@.skip(i + 1));
                let tail = chars@.skip(i + 1);
                if marker@.len() == 0 || rest.len() < marker@.len() {
                    assert(substituted_text(rest, marker@, value@) == rest);
                    assert(substituted_text(tail, marker@, value@) == tail);
                    assert(rest =~= seq![c] + tail);
                }
                assert(substituted_text(rest, marker@, value@) == seq![c] + substituted_text(
                    tail,
                    marker@,
                    value@,
                ));
                assert(before.push(c) + substituted_text(tail, marker@, value@) =~= before + (
                seq![c] + substituted_text(tail, marker@, value@)));
            }
            i += 1;
        }
    }
    assert(out@ + Seq::<char>::empty() =~= out@);
    out
}

/// The characters that count as white space at the end of a text.
pub open spec fn is_space(c: char) -> bool {
    c == ' ' || ('\t' <= c && c <= '\r') || c == '\u{85}' || c == '\u{a0}' || c == '\u{1680}' || (
    '\u{2000}' <= c && c <= '\u{200a}') || c == '\u{2028}' || c == '\u{2029}' || c == '\u{202f}'
        || c == '\u{205f}' || c == '\u{3000}'
}

fn space(c: char) -> (r: bool)
    ensures
        r == is_space(c),
{
    c == ' ' || ('\t' <= c && c <= '\r') || c == '\u{85}' || c == '\u{a0}' || c == '\u{1680}' || (
    '\u{2000}' <= c && c <= '\u{200a}') || c == '\u{2028}' || c == '\u{2029}' || c == '\u{202f}'
        || c == '\u{205f}' || c == '\u{3000}'
}

/// `s` without the white space at its end.
pub open spec fn trimmed_end_text(s: Seq<char>) -> Seq<char>
    decreases s.len(),
{
    if s.len() > 0 && is_space(s.last()) {
        trimmed_end_text(s.drop_last())
    } else {
        s
    }
}

/// Removes the white space at the end of `s`.
pub fn trim_end(s: &str) -> (r: String)
    ensures
        r@ == trimmed_end_text(s@),
{
    let chars = chars_of(s);
    let mut end: usize = chars.len();
    assert(chars@.take(end as int) =~= chars@);
    while end > 0 && space(chars[end - 1])
        invariant
            end <= chars.len(),
            chars@ == s@,
            trimmed_end_text(chars@.take(end as int)) == trimmed_end_text(s@),
        decreases end,
    {
        assert(chars@.take(end as int).drop_last() =~= chars@.take(end - 1));
        end -= 1;
    }
    let mut out = String::new();
    let mut i: usize = 0;
    while i < end
        invariant
            i <= end <= chars.len(),
            out@ == chars@.take(i as int),
        decreases end - i,
    {
        out.push(chars[i]);
        i += 1;
        assert(out@ =~= chars@.take(i as int));
    }
    out
}

} // verus!
