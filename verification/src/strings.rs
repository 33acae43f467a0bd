//! Cutting and rewriting texts: trimming white space, replacing and
//! splitting.

use crate::text::{chars_of, has_prefix, matches_at, occurs_at, push_char, string_of};
use vstd::prelude::*;
use vstd::string::*;

verus! {

// ---------------------------------------------------------------------------
// White space
// ---------------------------------------------------------------------------

/// Whether the character is white space: one of the characters with the
/// Unicode property `White_Space`.
pub open spec fn is_white_space(c: char) -> bool {
    let u = c as u32;
    ||| 0x09 <= u <= 0x0D
    ||| u == 0x20
    ||| u == 0x85
    ||| u == 0xA0
    ||| u == 0x1680
    ||| 0x2000 <= u <= 0x200A
    ||| u == 0x2028
    ||| u == 0x2029
    ||| u == 0x202F
    ||| u == 0x205F
    ||| u == 0x3000
}

/// Whether the character is white space.
pub fn is_whitespace(c: char) -> (r: bool)
    ensures
        r == is_white_space(c),
{
    let u = c as u32;
    (0x09 <= u && u <= 0x0D) || u == 0x20 || u == 0x85 || u == 0xA0 || u == 0x1680 || (0x2000 <= u
        && u <= 0x200A) || u == 0x2028 || u == 0x2029 || u == 0x202F || u == 0x205F || u == 0x3000
}

/// The text without the white space at its head.
pub open spec fn trimmed_start(s: Seq<char>) -> Seq<char>
    decreases s.len(),
{
    if s.len() > 0 && is_white_space(s[0]) {
        trimmed_start(s.skip(1))
    } else {
        s
    }
}

/// The text without the white space at its end.
pub open spec fn trimmed_end(s: Seq<char>) -> Seq<char>
    decreases s.len(),
{
    if s.len() > 0 && is_white_space(s.last()) {
        trimmed_end(s.drop_last())
    } else {
        s
    }
}

/// The text without the white space at its head and at its end.
pub open spec fn trimmed(s: Seq<char>) -> Seq<char> {
    trimmed_end(trimmed_start(s))
}

/// Returns the part of the characters from `from` up to `to` without the
/// white space at its head and at its end.
pub(crate) fn trim_range(chars: &Vec<char>, from: usize, to: usize) -> (r: (usize, usize))
    requires
        from <= to <= chars.len(),
    ensures
        from <= r.0 <= r.1 <= to,
        chars@.subrange(r.0 as int, r.1 as int) == trimmed(chars@.subrange(from as int, to as int)),
{
    let ghost whole = chars@.subrange(from as int, to as int);
    let mut start: usize = from;
    while start < to && is_whitespace(chars[start])
        invariant
            from <= start <= to <= chars.len(),
            whole == chars@.subrange(from as int, to as int),
            trimmed_start(whole) == trimmed_start(chars@.subrange(start as int, to as int)),
        decreases to - start,
    {
        proof {
            let now = chars@.subrange(start as int, to as int);
            assert(now.skip(1) =~= chars@.subrange(start + 1, to as int));
        }
        start += 1;
    }
    let ghost head = chars@.subrange(start as int, to as int);
    let mut end: usize = to;
    while end > start && is_whitespace(chars[end - 1])
        invariant
            start <= end <= to <= chars.len(),
            head == chars@.subrange(start as int, to as int),
            trimmed_end(head) == trimmed_end(chars@.subrange(start as int, end as int)),
        decreases end,
    {
        proof {
            let now = chars@.subrange(start as int, end as int);
            assert(now.drop_last() =~= chars@.subrange(start as int, end - 1));
        }
        end -= 1;
    }
    (start, end)
}

/// Returns the text without the white space at its head and at its end.
pub fn trim(s: &str) -> (r: String)
    ensures
        r@ == trimmed(s@),
{
    let chars = chars_of(s);
    assert(chars@.subrange(0, chars.len() as int) =~= s@);
    let (start, end) = trim_range(&chars, 0, chars.len());
    string_of(&chars, start, end)
}

// ---------------------------------------------------------------------------
// Prefixes and suffixes
// ---------------------------------------------------------------------------

/// Whether `s` ends with `p`.
pub open spec fn has_suffix(s: Seq<char>, p: Seq<char>) -> bool {
    p.len() <= s.len() && occurs_at(s, p, s.len() - p.len())
}

/// Whether `s` ends with `suffix`.
pub fn ends_with(s: &str, suffix: &str) -> (r: bool)
    ensures
        r == has_suffix(s@, suffix@),
{
    let text = chars_of(s);
    let p = chars_of(suffix);
    if p.len() > text.len() {
        return false;
    }
    matches_at(&text, &p, text.len() - p.len())
}

/// The text without the copies of `p` at its head; the text itself where
/// `p` is empty.
pub open spec fn without_leading(s: Seq<char>, p: Seq<char>) -> Seq<char>
    decreases s.len(),
{
    if p.len() > 0 && has_prefix(s, p) {
        without_leading(s.skip(p.len() as int), p)
    } else {
        s
    }
}

/// Returns the text without the copies of `prefix` at its head.
pub fn trim_start_matches(s: &str, prefix: &str) -> (r: String)
    ensures
        r@ == without_leading(s@, prefix@),
{
    let text = chars_of(s);
    let p = chars_of(prefix);
    if p.len() == 0 {
        let r = string_of(&text, 0, text.len());
        return r;
    }
    let mut start: usize = 0;
    assert(s@.skip(0) =~= s@);
    while matches_at(&text, &p, start)
        invariant
            start <= text.len(),
            p.len() > 0,
            text@ == s@,
            p@ == prefix@,
            without_leading(s@, prefix@) == without_leading(s@.skip(start as int), prefix@),
        decreases text.len() - start,
    {
        proof {
            let now = s@.skip(start as int);
            assert(now.subrange(0, p.len() as int) =~= s@.subrange(
                start as int,
                start + p.len(),
            ));
            assert(now.skip(p.len() as int) =~= s@.skip(start + p.len()));
        }
        start += p.len();
    }
    proof {
        let now = s@.skip(start as int);
        if has_prefix(now, prefix@) {
            assert(now.subrange(0, p.len() as int) =~= s@.subrange(
                start as int,
                start + p.len(),
            ));
        }
    }
    let r = string_of(&text, start, text.len());
    r
}

// ---------------------------------------------------------------------------
// Replacing
// ---------------------------------------------------------------------------

/// The text with every copy of `from` replaced by `to`, the copies taken
/// from left to right without overlap; `from` is not empty.
pub open spec fn replaced(s: Seq<char>, from: Seq<char>, to: Seq<char>) -> Seq<char>
    decreases s.len(),
{
    if from.len() == 0 || s.len() == 0 {
        s
    } else if has_prefix(s, from) {
        to + replaced(s.skip(from.len() as int), from, to)
    } else {
        seq![s[0]] + replaced(s.skip(1), from, to)
    }
}

/// Returns the text with every copy of `from` replaced by `to`. An empty
/// `from` replaces nothing.
pub fn replace(s: &str, from: &str, to: &str) -> (r: String)
    ensures
        r@ == replaced(s@, from@, to@),
{
    let text = chars_of(s);
    let p = chars_of(from);
    if p.len() == 0 {
        let r = string_of(&text, 0, text.len());
        return r;
    }
    let mut out = String::new();
    let mut i: usize = 0;
    assert(s@.skip(0) =~= s@);
    while i < text.len()
        invariant
            i <= text.len(),
            p.len() > 0,
            text@ == s@,
            p@ == from@,
            replaced(s@, from@, to@) == out@ + replaced(s@.skip(i as int), from@, to@),
        decreases text.len() - i,
    {
        let ghost now = s@.skip(i as int);
        let ghost before = out@;
        if matches_at(&text, &p, i) {
            proof {
                assert(now.subrange(0, p.len() as int) =~= s@.subrange(i as int, i + p.len()));
                assert(now.skip(p.len() as int) =~= s@.skip(i + p.len()));
            }
            out.append(to);
            i += p.len();
            assert(before + (to@ + replaced(s@.skip(i as int), from@, to@)) =~= out@ + replaced(
                s@.skip(i as int),
                from@,
                to@,
            ));
        } else {
            proof {
                if has_prefix(now, from@) {
                    assert(now.subrange(0, p.len() as int) =~= s@.subrange(
                        i as int,
                        i + p.len(),
                    ));
                }
                assert(now.skip(1) =~= s@.skip(i + 1));
            }
            push_char(&mut out, text[i]);
            i += 1;
            assert(before + (seq![s@[i - 1]] + replaced(s@.skip(i as int), from@, to@)) =~= out@
                + replaced(s@.skip(i as int), from@, to@));
        }
    }
    out
}

// ---------------------------------------------------------------------------
// Splitting
// ---------------------------------------------------------------------------

/// The pieces of the text between the characters `sep`, in their order.
/// There is always one piece more than there are separators.
pub open spec fn split(s: Seq<char>, sep: char) -> Seq<Seq<char>>
    decreases s.len(),
{
    if s.len() == 0 {
        seq![Seq::empty()]
    } else {
        let before = split(s.drop_last(), sep);
        if s.last() == sep {
            before.push(Seq::empty())
        } else {
            before.drop_last().push(before.last().push(s.last()))
        }
    }
}

/// A split has at least one piece.
pub proof fn lemma_split_len(s: Seq<char>, sep: char)
    ensures
        split(s, sep).len() >= 1,
    decreases s.len(),
{
    if s.len() > 0 {
        lemma_split_len(s.drop_last(), sep);
    }
}

/// Splits the text at every character `sep`.
pub fn split_on(s: &str, sep: char) -> (r: Vec<String>)
    ensures
        r.deep_view() == split(s@, sep),
{
    let text = chars_of(s);
    let mut pieces: Vec<String> = Vec::new();
    let mut current = String::new();
    let mut i: usize = 0;
    while i < text.len()
        invariant
            i <= text.len(),
            text@ == s@,
            pieces.deep_view().push(current@) == split(s@.take(i as int), sep),
        decreases text.len() - i,
    {
        proof {
            let now = s@.take(i + 1);
            assert(now.drop_last() =~= s@.take(i as int));
        }
        if text[i] == sep {
            pieces.push(current);
            current = String::new();
        } else {
            push_char(&mut current, text[i]);
        }
        i += 1;
    }
    assert(s@.take(text.len() as int) =~= s@);
    pieces.push(current);
    pieces
}

// ---------------------------------------------------------------------------
// Lines
// ---------------------------------------------------------------------------

/// A line without the carriage return at its end, where it has one.
pub open spec fn without_return(line: Seq<char>) -> Seq<char> {
    if line.len() > 0 && line.last() == '\r' {
        line.drop_last()
    } else {
        line
    }
}

/// The lines of a text. A line ends with a line feed, or with a carriage
/// return and a line feed; neither belongs to the line. What follows the
/// last line feed is a line too, unless it is empty.
pub open spec fn text_lines(s: Seq<char>) -> Seq<Seq<char>> {
    let pieces = split(s, '\n');
    let ended = Seq::new((pieces.len() - 1) as nat, |i: int| without_return(pieces[i]));
    if pieces.last().len() == 0 {
        ended
    } else {
        ended.push(pieces.last())
    }
}

/// Splits a text into its lines.
pub fn lines_of(content: &str) -> (r: Vec<String>)
    ensures
        r.deep_view() == text_lines(content@),
{
    let pieces = split_on(content, '\n');
    proof {
        lemma_split_len(content@, '\n');
    }
    let ghost all = pieces.deep_view();
    let last = pieces.len() - 1;
    let mut out: Vec<String> = Vec::new();
    let mut k: usize = 0;
    while k < last
        invariant
            k <= last,
            last == pieces.len() - 1,
            all == pieces.deep_view(),
            out.len() == k,
            forall|i: int| 0 <= i < k ==> (#[trigger] out@[i])@ == without_return(all[i]),
        decreases last - k,
    {
        let chars = chars_of(pieces[k].as_str());
        let n = chars.len();
        let line = if n > 0 && chars[n - 1] == '\r' {
            let cut = string_of(&chars, 0, n - 1);
            cut
        } else {
            let whole = string_of(&chars, 0, n);
            whole
        };
        out.push(line);
        k += 1;
    }
    if !pieces[last].as_str().is_empty() {
        out.push(pieces[last].clone());
    }
    out
}

} // verus!
