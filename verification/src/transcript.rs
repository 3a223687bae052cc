//! Putting the text of a recognition together from the segments that the
//! speech engine delivers.

use vstd::prelude::*;
use vstd::string::*;
use crate::text::chars_of;

verus! {

/// Whether a character is white space as Unicode defines it (the derived
/// core property `White_Space`).
pub uninterp spec fn is_white_space(c: char) -> bool;

/// Calls `char::is_whitespace`, which the standard library documents as the
/// test for the Unicode property `White_Space`: a function of the character
/// alone. The contract gives that answer its name and claims nothing else.
#[verifier::external_body]
fn white_space(c: char) -> (white: bool)
    ensures
        white == is_white_space(c),
{
    c.is_whitespace()
}

/// The texts of a list of strings, in order.
pub open spec fn texts_view(texts: Seq<String>) -> Seq<Seq<char>> {
    texts.map_values(|text: String| text@)
}

/// The segments in order, each followed by one space.
pub open spec fn joined(segments: Seq<Seq<char>>) -> Seq<char>
    decreases segments.len(),
{
    if segments.len() == 0 {
        Seq::empty()
    } else {
        joined(segments.drop_last()) + segments.last() + seq![' ']
    }
}

/// The marks of a text: for each character, whether it is white space.
pub open spec fn white_marks(text: Seq<char>) -> Seq<bool> {
    text.map_values(|c: char| is_white_space(c))
}

/// The length of a run of marks without the set marks at its end.
pub open spec fn kept_end(marks: Seq<bool>) -> nat
    decreases marks.len(),
{
    if marks.len() == 0 || !marks.last() {
        marks.len()
    } else {
        kept_end(marks.drop_last())
    }
}

/// The number of set marks at the start of a run of marks.
pub open spec fn kept_start(marks: Seq<bool>) -> nat
    decreases marks.len(),
{
    if marks.len() == 0 || !marks.first() {
        0
    } else {
        1 + kept_start(marks.drop_first())
    }
}

/// `text` without the marked characters at its end and, of what is left,
/// without the marked characters at its start.
pub open spec fn trimmed_by(text: Seq<char>, marks: Seq<bool>) -> Seq<char> {
    let end = kept_end(marks);
    let start = kept_start(marks.take(end as int));
    text.subrange(start as int, end as int)
}

/// `text` without the white space at its start and at its end.
pub open spec fn trimmed(text: Seq<char>) -> Seq<char> {
    trimmed_by(text, white_marks(text))
}

/// The text of a recognition: the segments joined, each followed by a
/// space, with the white space at both ends removed.
pub open spec fn assembled(segments: Seq<Seq<char>>) -> Seq<char> {
    trimmed(joined(segments))
}

/// For a text and as many marks, the text without the marked characters at
/// both ends; the marks say which characters count as white space.
pub fn trim_marked(text: &str, marks: &Vec<bool>) -> (kept: String)
    requires
        marks@.len() == text@.len(),
    ensures
        kept@ == trimmed_by(text@, marks@),
{
    let len = marks.len();
    let mut end: usize = len;
    assert(marks@.take(len as int) =~= marks@);
    while end > 0 && marks[end - 1]
        invariant
            end <= len,
            len == marks@.len(),
            kept_end(marks@) == kept_end(marks@.take(end as int)),
        decreases end,
    {
        assert(marks@.take(end as int).drop_last() =~= marks@.take(end - 1));
        end -= 1;
    }
    proof {
        let rest = marks@.take(end as int);
        if end > 0 {
            assert(rest.last() == marks@[end - 1]);
        }
        assert(kept_end(rest) == end);
    }
    let ghost front = marks@.take(end as int);
    let mut start: usize = 0;
    assert(front.skip(0) =~= front);
    while start < end && marks[start]
        invariant
            start <= end <= len,
            len == marks@.len(),
            front == marks@.take(end as int),
            kept_start(front) == start + kept_start(front.skip(start as int)),
        decreases end - start,
    {
        assert(front.skip(start as int).first() == marks@[start as int]);
        assert(front.skip(start as int).drop_first() =~= front.skip(start + 1));
        start += 1;
    }
    proof {
        let rest = front.skip(start as int);
        if start < end {
            assert(rest.first() == marks@[start as int]);
        }
        assert(kept_start(rest) == 0);
    }
    String::from_str(text.substring_char(start, end))
}

/// `text` without the white space at its start and at its end.
pub fn trim(text: &str) -> (kept: String)
    ensures
        kept@ == trimmed(text@),
{
    let chars = chars_of(text);
    let mut marks: Vec<bool> = Vec::new();
    let mut i: usize = 0;
    while i < chars.len()
        invariant
            i <= chars@.len(),
            marks@ == white_marks(chars@.take(i as int)),
        decreases chars@.len() - i,
    {
        marks.push(white_space(chars[i]));
        i += 1;
        assert(marks@ =~= white_marks(chars@.take(i as int)));
    }
    assert(chars@.take(chars@.len() as int) =~= chars@);
    trim_marked(text, &marks)
}

/// The text of a recognition from its segments.
pub fn assemble(segments: &Vec<String>) -> (text: String)
    ensures
        text@ == assembled(texts_view(segments@)),
{
    let ghost all = texts_view(segments@);
    let mut text = String::new();
    let mut i: usize = 0;
    while i < segments.len()
        invariant
            i <= segments@.len(),
            all == texts_view(segments@),
            text@ == joined(all.take(i as int)),
        decreases segments@.len() - i,
    {
        proof {
            let upto = all.take(i + 1);
            assert(upto.drop_last() =~= all.take(i as int));
            assert(upto.last() == segments@[i as int]@);
            reveal_strlit(" ");
            assert(" "@ =~= seq![' ']);
        }
        text.append(segments[i].as_str());
        text.append(" ");
        i += 1;
    }
    assert(all.take(segments@.len() as int) =~= all);
    trim(text.as_str())
}

} // verus!
