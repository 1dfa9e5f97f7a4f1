//! Turning a name that a user typed into a leaf name that is safe in a file system.

use crate::text::chars_of;
use vstd::prelude::*;

verus! {

/// Whether `c` has the Unicode property `White_Space`: the answer of
/// `char::is_whitespace`, which depends on nothing but the character.
pub uninterp spec fn is_white_space(c: char) -> bool;

/// `char::is_whitespace` of std. The contract gives its answer a name and
/// claims nothing else of it.
pub assume_specification[ char::is_whitespace ](c: char) -> (b: bool)
    ensures
        b == is_white_space(c),
;

/// The characters that a path would read as structure, or that common file
/// systems refuse in a name.
pub open spec fn is_hostile(c: char) -> bool {
    c == '/' || c == '\\' || c == ':' || c == '*' || c == '?' || c == '"' || c == '<' || c == '>'
        || c == '|'
}

/// What stands in a sanitized name in the place of `c`.
pub open spec fn replaced(c: char) -> char {
    if is_hostile(c) {
        '_'
    } else {
        c
    }
}

/// `s` without the white space it starts with.
pub open spec fn skip_leading(s: Seq<char>) -> Seq<char>
    decreases s.len(),
{
    if s.len() > 0 && is_white_space(s.first()) {
        skip_leading(s.drop_first())
    } else {
        s
    }
}

/// `s` without the white space it ends with.
pub open spec fn skip_trailing(s: Seq<char>) -> Seq<char>
    decreases s.len(),
{
    if s.len() > 0 && is_white_space(s.last()) {
        skip_trailing(s.drop_last())
    } else {
        s
    }
}

/// `s` without the white space around it.
pub open spec fn trimmed(s: Seq<char>) -> Seq<char> {
    skip_trailing(skip_leading(s))
}

/// The name that stands for an input with nothing in it.
pub open spec fn placeholder() -> Seq<char> {
    "Untitled"@
}

/// The safe leaf name for `s`: trimmed, every hostile character replaced by
/// an underscore, and the placeholder where nothing is left.
pub open spec fn sanitized(s: Seq<char>) -> Seq<char> {
    let t = trimmed(s);
    if t.len() == 0 {
        placeholder()
    } else {
        t.map_values(|c: char| replaced(c))
    }
}

/// Whether every character of `s` from `from` up to `to` is white space.
pub open spec fn all_white(s: Seq<char>, from: int, to: int) -> bool {
    forall|j: int| from <= j < to ==> is_white_space(#[trigger] s[j])
}

/// Skipping leading white space of `s` leaves the part from `start` on, when
/// `start` is where the first other character stands (or the end).
proof fn lemma_skip_leading(s: Seq<char>, start: int)
    requires
        0 <= start <= s.len(),
        all_white(s, 0, start),
        start < s.len() ==> !is_white_space(s[start]),
    ensures
        skip_leading(s) == s.subrange(start, s.len() as int),
    decreases s.len(),
{
    if start == 0 {
        assert(s.subrange(0, s.len() as int) =~= s);
    } else {
        let rest = s.drop_first();
        assert forall|j: int| 0 <= j < start - 1 implies is_white_space(#[trigger] rest[j]) by {
            assert(rest[j] == s[j + 1]);
        }
        lemma_skip_leading(rest, start - 1);
        assert(rest.subrange(start - 1, rest.len() as int) =~= s.subrange(start, s.len() as int));
    }
}

/// Skipping trailing white space of `s` leaves the part before `end`, when
/// the last other character stands just before `end` (or `end` is 0).
proof fn lemma_skip_trailing(s: Seq<char>, end: int)
    requires
        0 <= end <= s.len(),
        all_white(s, end, s.len() as int),
        end > 0 ==> !is_white_space(s[end - 1]),
    ensures
        skip_trailing(s) == s.subrange(0, end),
    decreases s.len(),
{
    if end == s.len() {
        assert(s.subrange(0, end) =~= s);
    } else {
        let rest = s.drop_last();
        assert forall|j: int| end <= j < rest.len() implies is_white_space(#[trigger] rest[j]) by {
            assert(rest[j] == s[j]);
        }
        lemma_skip_trailing(rest, end);
        assert(rest.subrange(0, end) =~= s.subrange(0, end));
    }
}

/// Whether `c` is one of the characters that `sanitize_filename` replaces.
pub fn is_hostile_char(c: char) -> (b: bool)
    ensures
        b == is_hostile(c),
{
    c == '/' || c == '\\' || c == ':' || c == '*' || c == '?' || c == '"' || c == '<' || c == '>'
        || c == '|'
}

/// Where the trimmed part of `chars` starts and ends.
fn trim_bounds(chars: &Vec<char>) -> (bounds: (usize, usize))
    ensures
        bounds.0 <= bounds.1 <= chars.len(),
        trimmed(chars@) == chars@.subrange(bounds.0 as int, bounds.1 as int),
{
    let n = chars.len();
    let mut start: usize = 0;
    while start < n && chars[start].is_whitespace()
        invariant
            start <= n,
            n == chars.len(),
            all_white(chars@, 0, start as int),
        decreases n - start,
    {
        start += 1;
    }
    let mut end: usize = n;
    while end > start && chars[end - 1].is_whitespace()
        invariant
            start <= end <= n,
            n == chars.len(),
            all_white(chars@, end as int, n as int),
        decreases end,
    {
        end -= 1;
    }
    proof {
        let s = chars@;
        let tail = s.subrange(start as int, n as int);
        lemma_skip_leading(s, start as int);
        assert forall|j: int| end - start <= j < tail.len() implies is_white_space(
            #[trigger] tail[j],
        ) by {
            assert(tail[j] == s[j + start]);
        }
        lemma_skip_trailing(tail, end - start);
        assert(tail.subrange(0, end - start) =~= s.subrange(start as int, end as int));
    }
    (start, end)
}

/// Light hygiene for a name that becomes a file name: the white space around
/// it goes, each of `/ \ : * ? " < > |` becomes an underscore, and an input
/// with nothing else in it gives `Untitled`. Never fails.
pub fn sanitize_filename(input: &str) -> (name: String)
    ensures
        name@ == sanitized(input@),
{
    let chars = chars_of(input);
    let (start, end) = trim_bounds(&chars);
    if start == end {
        return "Untitled".to_string();
    }
    let mut name = String::new();
    let mut i: usize = start;
    let ghost kept = chars@.subrange(start as int, end as int);
    while i < end
        invariant
            start <= i <= end <= chars.len(),
            kept == chars@.subrange(start as int, end as int),
            name@ == kept.take(i - start).map_values(|c: char| replaced(c)),
        decreases end - i,
    {
        let c = chars[i];
        let r = if is_hostile_char(c) {
            '_'
        } else {
            c
        };
        name.push(r);
        proof {
            let f = |c: char| replaced(c);
            assert(kept.take(i + 1 - start).map_values(f) =~= kept.take(i - start).map_values(
                f,
            ).push(r));
        }
        i += 1;
    }
    assert(kept.take(end - start) =~= kept);
    name
}

/// A sanitized name is fit to be a file name: it is never empty, and none
/// of its characters is hostile. An input with nothing in it gives the
/// placeholder.
pub proof fn law_sanitized_name_is_safe(input: Seq<char>)
    ensures
        sanitized(input).len() > 0,
        forall|i: int| 0 <= i < sanitized(input).len() ==> !is_hostile(#[trigger] sanitized(input)[i]),
        input.len() == 0 ==> sanitized(input) == placeholder(),
{
    reveal_strlit("Untitled");
}

} // verus!
