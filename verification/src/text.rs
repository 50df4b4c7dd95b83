//! Text predicates and transformations over character sequences.
//!
//! Contracts speak of a text as a `Seq<char>`; executable code works on
//! slices of characters.

use vstd::prelude::*;
use vstd::slice::slice_subrange;

verus! {

/// Whether `c` carries the Unicode `White_Space` property.
pub open spec fn is_white_space(c: char) -> bool {
    let code = c as u32;
    ||| 0x09 <= code <= 0x0D
    ||| code == 0x20
    ||| code == 0x85
    ||| code == 0xA0
    ||| code == 0x1680
    ||| 0x2000 <= code <= 0x200A
    ||| code == 0x2028
    ||| code == 0x2029
    ||| code == 0x202F
    ||| code == 0x205F
    ||| code == 0x3000
}

/// Whether `text` is empty or made of white space only.
pub open spec fn is_blank(text: Seq<char>) -> bool {
    forall|i: int| 0 <= i < text.len() ==> is_white_space(#[trigger] text[i])
}

/// `text` without its leading white space.
pub open spec fn trim_start_text(text: Seq<char>) -> Seq<char>
    decreases text.len(),
{
    if text.len() > 0 && is_white_space(text.first()) {
        trim_start_text(text.drop_first())
    } else {
        text
    }
}

/// `text` without its trailing white space.
pub open spec fn trim_end_text(text: Seq<char>) -> Seq<char>
    decreases text.len(),
{
    if text.len() > 0 && is_white_space(text.last()) {
        trim_end_text(text.drop_last())
    } else {
        text
    }
}

/// `text` without its leading and trailing white space.
pub open spec fn trim_text(text: Seq<char>) -> Seq<char> {
    trim_end_text(trim_start_text(text))
}

/// Whether `pattern` occurs in `text` as a run of adjacent characters.
pub open spec fn contains_text(text: Seq<char>, pattern: Seq<char>) -> bool {
    exists|start: int|
        0 <= start && start + pattern.len() <= text.len() && #[trigger] text.subrange(
            start,
            start + pattern.len(),
        ) == pattern
}

/// The lower-case form of an ASCII capital letter; any other character is
/// left as it is.
pub open spec fn ascii_lowercase(c: char) -> char {
    if 0x41 <= c as u32 <= 0x5A {
        ((c as u8 + 32) as u8) as char
    } else {
        c
    }
}

/// `text` with every ASCII capital letter in lower case.
pub open spec fn lowercase_text(text: Seq<char>) -> Seq<char> {
    text.map_values(|c: char| ascii_lowercase(c))
}

/// The texts of a sequence of string slices, in order.
pub open spec fn str_texts(items: Seq<&str>) -> Seq<Seq<char>> {
    items.map_values(|item: &str| item@)
}

/// The texts of a sequence of strings, in order.
pub open spec fn string_texts(items: Seq<String>) -> Seq<Seq<char>> {
    items.map_values(|item: String| item@)
}

/// Where the first line feed of `text` stands, or the length of `text` if
/// it holds none.
pub open spec fn first_line_feed(text: Seq<char>) -> int
    decreases text.len(),
{
    if text.len() == 0 || text.first() == '\n' {
        0
    } else {
        1 + first_line_feed(text.drop_first())
    }
}

/// `line` without one trailing carriage return.
pub open spec fn without_carriage_return(line: Seq<char>) -> Seq<char> {
    if line.len() > 0 && line.last() == '\r' {
        line.drop_last()
    } else {
        line
    }
}

/// The lines of `text`. A line ends at a line feed, which is not part of
/// it, nor is a carriage return just before that line feed. What follows
/// the last line feed is a line of its own unless it is empty.
pub open spec fn lines_of(text: Seq<char>) -> Seq<Seq<char>>
    decreases text.len(),
{
    if text.len() == 0 {
        Seq::empty()
    } else {
        let end = first_line_feed(text);
        if 0 <= end < text.len() {
            seq![without_carriage_return(text.take(end))] + lines_of(text.skip(end + 1))
        } else {
            seq![text]
        }
    }
}

/// `char::is_whitespace` answers whether the character has the Unicode
/// `White_Space` property; the contract spells that property out by code point.
pub assume_specification[ char::is_whitespace ](c: char) -> (white: bool)
    ensures
        white == is_white_space(c),
;

/// `char::to_ascii_lowercase` maps the ASCII letters `A` to `Z` to `a` to `z`
/// and gives every other character back unchanged.
pub assume_specification[ char::to_ascii_lowercase ](c: &char) -> (lower: char)
    ensures
        lower == ascii_lowercase(*c),
;

/// `String::from_iter` over the characters of a slice builds the string that
/// holds exactly those characters, in order.
#[verifier::external_body]
pub(crate) fn text_of(chars: &[char]) -> (text: String)
    ensures
        text@ == chars@,
{
    String::from_iter(chars.iter())
}

/// Decide whether `text` is empty or white space only.
pub fn is_blank_text(text: &str) -> (blank: bool)
    ensures
        blank == is_blank(text@),
{
    for c in iter: text.chars()
        invariant
            iter.seq() == text@,
            forall|i: int| 0 <= i < iter.index() ==> is_white_space(#[trigger] text@[i]),
    {
        if !c.is_whitespace() {
            return false;
        }
    }
    true
}

/// The characters of `text`, in order.
pub fn chars_of(text: &str) -> (chars: Vec<char>)
    ensures
        chars@ == text@,
{
    let mut chars: Vec<char> = Vec::new();
    for c in iter: text.chars()
        invariant
            iter.seq() == text@,
            chars@ == text@.take(iter.index()),
    {
        chars.push(c);
        assert(chars@ =~= text@.take(iter.index() + 1));
    }
    assert(text@.take(text@.len() as int) =~= text@);
    chars
}

/// The length of `literal` if `chars` begins with it.
pub fn prefix_len(chars: &[char], literal: &str) -> (len: Option<usize>)
    ensures
        len is Some <==> literal@.is_prefix_of(chars@),
        len is Some ==> len->Some_0 == literal@.len(),
{
    let mut matched: usize = 0;
    for c in iter: literal.chars()
        invariant
            iter.seq() == literal@,
            matched == iter.index(),
            matched <= chars.len(),
            chars@.take(matched as int) == literal@.take(matched as int),
    {
        if matched >= chars.len() || chars[matched] != c {
            assert(!literal@.is_prefix_of(chars@)) by {
                if literal@.is_prefix_of(chars@) {
                    assert(chars@.subrange(0, literal@.len() as int)[matched as int]
                        == literal@[matched as int]);
                }
            }
            return None;
        }
        matched += 1;
        assert(chars@.take(matched as int) =~= literal@.take(matched as int)) by {
            assert(chars@.take(matched - 1) == literal@.take(matched - 1));
            assert forall|k: int| 0 <= k < matched implies chars@.take(matched as int)[k]
                == literal@.take(matched as int)[k] by {
                if k < matched - 1 {
                    assert(chars@.take(matched - 1)[k] == literal@.take(matched - 1)[k]);
                }
            }
        }
    }
    assert(literal@.take(literal@.len() as int) =~= literal@);
    Some(matched)
}

/// Whether `chars` begins with `literal`.
pub fn starts_with(chars: &[char], literal: &str) -> (found: bool)
    ensures
        found == literal@.is_prefix_of(chars@),
{
    prefix_len(chars, literal).is_some()
}

/// Whether `chars` is `literal`, character for character.
pub fn matches_text(chars: &[char], literal: &str) -> (same: bool)
    ensures
        same == (chars@ == literal@),
{
    match prefix_len(chars, literal) {
        Some(len) => {
            assert(len == chars.len() ==> chars@ =~= literal@);
            len == chars.len()
        },
        None => false,
    }
}

/// `chars` without its leading white space.
pub fn trim_start(chars: &[char]) -> (trimmed: &[char])
    ensures
        trimmed@ == trim_start_text(chars@),
{
    let mut start: usize = 0;
    assert(chars@.skip(0) =~= chars@);
    while start < chars.len() && chars[start].is_whitespace()
        invariant
            start <= chars.len(),
            trim_start_text(chars@) == trim_start_text(chars@.skip(start as int)),
        decreases chars.len() - start,
    {
        proof {
            let rest = chars@.skip(start as int);
            assert(rest.first() == chars@[start as int]);
            assert(rest.drop_first() =~= chars@.skip(start + 1));
        }
        start += 1;
    }
    proof {
        let rest = chars@.skip(start as int);
        if start < chars.len() {
            assert(rest.first() == chars@[start as int]);
        }
        assert(rest =~= chars@.subrange(start as int, chars.len() as int));
    }
    slice_subrange(chars, start, chars.len())
}

/// `chars` without its trailing white space.
pub fn trim_end(chars: &[char]) -> (trimmed: &[char])
    ensures
        trimmed@ == trim_end_text(chars@),
{
    let mut end: usize = chars.len();
    assert(chars@.take(chars.len() as int) =~= chars@);
    while end > 0 && chars[end - 1].is_whitespace()
        invariant
            end <= chars.len(),
            trim_end_text(chars@) == trim_end_text(chars@.take(end as int)),
        decreases end,
    {
        proof {
            let kept = chars@.take(end as int);
            assert(kept.last() == chars@[end - 1]);
            assert(kept.drop_last() =~= chars@.take(end - 1));
        }
        end -= 1;
    }
    proof {
        let kept = chars@.take(end as int);
        if end > 0 {
            assert(kept.last() == chars@[end - 1]);
        }
        assert(kept =~= chars@.subrange(0, end as int));
        assert(chars@.take(chars.len() as int) =~= chars@);
    }
    slice_subrange(chars, 0, end)
}

/// `chars` without its leading and trailing white space.
pub fn trim(chars: &[char]) -> (trimmed: &[char])
    ensures
        trimmed@ == trim_text(chars@),
{
    trim_end(trim_start(chars))
}

/// Whether `pattern` occurs in `chars` as a run of adjacent characters.
pub fn contains(chars: &[char], pattern: &[char]) -> (found: bool)
    ensures
        found == contains_text(chars@, pattern@),
{
    if pattern.len() > chars.len() {
        return false;
    }
    let last_start: usize = chars.len() - pattern.len();
    let mut start: usize = 0;
    while start <= last_start
        invariant
            last_start == chars.len() - pattern.len(),
            start <= last_start + 1,
            forall|i: int|
                0 <= i < start ==> #[trigger] chars@.subrange(i, i + pattern@.len()) != pattern@,
        decreases last_start + 1 - start,
    {
        let mut matched: usize = 0;
        while matched < pattern.len() && chars[start + matched] == pattern[matched]
            invariant
                start + pattern.len() <= chars.len(),
                matched <= pattern.len(),
                forall|k: int| 0 <= k < matched ==> chars@[start + k] == pattern@[k],
            decreases pattern.len() - matched,
        {
            matched += 1;
        }
        let ghost window = chars@.subrange(start as int, start + pattern@.len());
        if matched == pattern.len() {
            assert(window =~= pattern@);
            return true;
        }
        assert(window[matched as int] != pattern@[matched as int]);
        start += 1;
    }
    false
}

/// `chars` with every ASCII capital letter in lower case.
pub fn lowercased(chars: &[char]) -> (lowered: Vec<char>)
    ensures
        lowered@ == lowercase_text(chars@),
{
    let mut lowered: Vec<char> = Vec::with_capacity(chars.len());
    for i in 0..chars.len()
        invariant
            lowered@ == lowercase_text(chars@.take(i as int)),
    {
        lowered.push(chars[i].to_ascii_lowercase());
        assert(lowered@ =~= lowercase_text(chars@.take(i + 1)));
    }
    assert(chars@.take(chars.len() as int) =~= chars@);
    lowered
}

/// The length of what stands before `literal` at the end of `chars`, if
/// `chars` ends with it.
pub fn suffix_start(chars: &[char], literal: &str) -> (start: Option<usize>)
    ensures
        start is Some <==> literal@.is_suffix_of(chars@),
        start is Some ==> start->Some_0 + literal@.len() == chars@.len(),
{
    let suffix = chars_of(literal);
    if suffix.len() > chars.len() {
        return None;
    }
    let start: usize = chars.len() - suffix.len();
    let tail = slice_subrange(chars, start, chars.len());
    match prefix_len(tail, literal) {
        Some(len) => {
            assert(tail@ =~= literal@);
            Some(start)
        },
        None => {
            assert(!literal@.is_suffix_of(chars@)) by {
                if literal@.is_suffix_of(chars@) {
                    assert(tail@.subrange(0, literal@.len() as int) =~= tail@);
                }
            }
            None
        },
    }
}

/// The texts of a sequence of character slices, in order.
pub open spec fn line_texts(lines: Seq<&[char]>) -> Seq<Seq<char>> {
    lines.map_values(|line: &[char]| line@)
}

/// The first line feed of `text` stands at `end` when no line feed stands
/// before `end` and `end` is either a line feed or the end of `text`.
proof fn lemma_first_line_feed(text: Seq<char>, end: int)
    requires
        0 <= end <= text.len(),
        forall|k: int| 0 <= k < end ==> text[k] != '\n',
        end == text.len() || text[end] == '\n',
    ensures
        first_line_feed(text) == end,
    decreases end,
{
    if end > 0 {
        let rest = text.drop_first();
        assert forall|k: int| 0 <= k < end - 1 implies rest[k] != '\n' by {
            assert(rest[k] == text[k + 1]);
        }
        lemma_first_line_feed(rest, end - 1);
    }
}

/// The lines of `chars`, each a part of `chars`.
pub fn lines(chars: &[char]) -> (lines: Vec<&[char]>)
    ensures
        line_texts(lines@) == lines_of(chars@),
{
    let mut lines: Vec<&[char]> = Vec::new();
    let mut pos: usize = 0;
    assert(chars@.skip(0) =~= chars@);
    while pos < chars.len()
        invariant
            pos <= chars.len(),
            lines_of(chars@) == line_texts(lines@) + lines_of(chars@.skip(pos as int)),
        decreases chars.len() - pos,
    {
        let ghost rest = chars@.skip(pos as int);
        let ghost before = line_texts(lines@);
        let mut end: usize = pos;
        while end < chars.len() && chars[end] != '\n'
            invariant
                pos <= end <= chars.len(),
                forall|k: int| pos <= k < end ==> chars@[k] != '\n',
            decreases chars.len() - end,
        {
            end += 1;
        }
        proof {
            assert forall|k: int| 0 <= k < end - pos implies rest[k] != '\n' by {
                assert(rest[k] == chars@[pos + k]);
            }
            lemma_first_line_feed(rest, end - pos);
        }
        if end == chars.len() {
            let line = slice_subrange(chars, pos, end);
            lines.push(line);
            proof {
                assert(line@ =~= rest);
                assert(line_texts(lines@) =~= before.push(rest));
                assert(lines_of(chars@.skip(end as int)) =~= Seq::<Seq<char>>::empty());
                assert(lines_of(rest) =~= seq![rest]);
            }
            pos = end;
        } else {
            let mut line_end: usize = end;
            if line_end > pos && chars[line_end - 1] == '\r' {
                line_end -= 1;
            }
            let line = slice_subrange(chars, pos, line_end);
            lines.push(line);
            proof {
                let whole = rest.take(end - pos);
                assert(whole =~= chars@.subrange(pos as int, end as int));
                if whole.len() > 0 {
                    assert(whole.last() == chars@[end - 1]);
                }
                assert(line@ =~= without_carriage_return(whole));
                assert(line_texts(lines@) =~= before.push(line@));
                assert(rest.skip(end - pos + 1) =~= chars@.skip(end + 1));
                assert(before + (seq![line@] + lines_of(chars@.skip(end + 1))) =~= before.push(
                    line@,
                ) + lines_of(chars@.skip(end + 1)));
            }
            pos = end + 1;
        }
    }
    assert(lines_of(chars@.skip(pos as int)) =~= Seq::<Seq<char>>::empty());
    assert(line_texts(lines@) + Seq::<Seq<char>>::empty() =~= line_texts(lines@));
    lines
}

} // verus!
