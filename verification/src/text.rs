//! Getting a text ready for typing: line endings and the stand-in for an
//! empty source.

use crate::unicode::{is_whitespace, unicode_whitespace};
use vstd::prelude::*;

verus! {

/// `String::push` appends the character to the end of the string.
pub assume_specification[ String::push ](s: &mut String, ch: char)
    ensures
        final(s)@ == old(s)@.push(ch),
;

/// Whether the text holds nothing but white space.
pub open spec fn is_blank(text: Seq<char>) -> bool {
    forall|i: int| 0 <= i < text.len() ==> unicode_whitespace(#[trigger] text[i])
}

/// The text with every carriage return that stands directly before a line
/// feed taken out.
pub open spec fn unix_lines(text: Seq<char>) -> Seq<char>
    decreases text.len(),
{
    if text.len() == 0 {
        Seq::empty()
    } else if text.len() >= 2 && text[text.len() - 2] == '\r' && text.last() == '\n' {
        unix_lines(text.drop_last().drop_last()).push('\n')
    } else {
        unix_lines(text.drop_last()).push(text.last())
    }
}

/// The text without the line feed at its end, if it has one.
pub open spec fn without_final_newline(text: Seq<char>) -> Seq<char> {
    if text.len() > 0 && text.last() == '\n' {
        text.drop_last()
    } else {
        text
    }
}

/// The text as it is handed to the typist.
pub open spec fn prepared(content: Seq<char>) -> Seq<char> {
    without_final_newline(unix_lines(content))
}

/// The text that is typed where the source holds none.
pub fn default_text() -> (text: String)
    ensures
        text@ == "Type your text here.\nType your text here."@,
{
    "Type your text here.\nType your text here.".to_owned()
}

/// Whether the text holds nothing but white space.
pub fn blank(content: &str) -> (b: bool)
    ensures
        b == is_blank(content@),
{
    let n = content.unicode_len();
    let mut i: usize = 0;
    while i < n
        invariant
            i <= n,
            n == content@.len(),
            forall|j: int| 0 <= j < i ==> unicode_whitespace(#[trigger] content@[j]),
        decreases n - i,
    {
        if !is_whitespace(content.get_char(i)) {
            return false;
        }
        i = i + 1;
    }
    true
}

/// The characters of the text with Windows line endings turned into line
/// feeds.
pub fn normalize_line_endings(content: &str) -> (out: Vec<char>)
    ensures
        out@ == unix_lines(content@),
{
    let n = content.unicode_len();
    let mut out: Vec<char> = Vec::new();
    let mut i: usize = 0;
    while i < n
        invariant
            i <= n,
            n == content@.len(),
            out@ == unix_lines(content@.take(i as int)),
            0 < i < n ==> !(content@[i - 1] == '\r' && content@[i as int] == '\n'),
        decreases n - i,
    {
        let c = content.get_char(i);
        if c == '\r' && i + 1 < n && content.get_char(i + 1) == '\n' {
            proof {
                let t = content@.take(i + 2);
                assert(t.drop_last().drop_last() =~= content@.take(i as int));
            }
            out.push('\n');
            i = i + 2;
        } else {
            proof {
                let t = content@.take(i + 1);
                assert(t.drop_last() =~= content@.take(i as int));
            }
            out.push(c);
            i = i + 1;
        }
    }
    assert(content@.take(n as int) =~= content@);
    out
}

/// The text to type for what the source holds: `None` where the source is
/// blank and the stand-in is to be typed, else the content with Windows
/// line endings turned into line feeds and without the line feed at its
/// end.
pub fn prepare_text(content: &str) -> (text: Option<String>)
    ensures
        is_blank(content@) <==> text is None,
        text is Some ==> text->0@ == prepared(content@),
{
    if blank(content) {
        return None;
    }
    let mut chars = normalize_line_endings(content);
    let len = chars.len();
    if len > 0 && chars[len - 1] == '\n' {
        chars.pop();
    }
    assert(chars@ =~= prepared(content@));
    let mut text = String::new();
    let mut i: usize = 0;
    while i < chars.len()
        invariant
            i <= chars@.len(),
            text@ == chars@.take(i as int),
        decreases chars@.len() - i,
    {
        text.push(chars[i]);
        assert(chars@.take(i + 1) =~= chars@.take(i as int).push(chars@[i as int]));
        i = i + 1;
    }
    assert(chars@.take(chars@.len() as int) =~= chars@);
    Some(text)
}

} // verus!
