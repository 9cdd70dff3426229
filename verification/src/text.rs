use vstd::prelude::*;
use vstd::string::*;

verus! {

/// A text that may be missing, by its characters.
pub open spec fn text_view(text: Option<String>) -> Option<Seq<char>> {
    match text {
        Some(t) => Some(t@),
        None => None,
    }
}

/// A borrowed text that may be missing, by its characters.
pub open spec fn str_view(text: Option<&str>) -> Option<Seq<char>> {
    match text {
        Some(t) => Some(t@),
        None => None,
    }
}

/// Whether `text` begins with `prefix`.
pub fn starts_with(text: &str, prefix: &str) -> (found: bool)
    ensures
        found == prefix@.is_prefix_of(text@),
{
    let wanted = prefix.unicode_len();
    if text.unicode_len() < wanted {
        return false;
    }
    let mut at: usize = 0;
    while at < wanted
        invariant
            at <= wanted,
            wanted == prefix@.len(),
            wanted <= text@.len(),
            forall|k: int| 0 <= k < at ==> text@[k] == prefix@[k],
        decreases wanted - at,
    {
        if text.get_char(at) != prefix.get_char(at) {
            assert(text@.subrange(0, wanted as int)[at as int] != prefix@[at as int]);
            return false;
        }
        at = at + 1;
    }
    assert(text@.subrange(0, wanted as int) =~= prefix@);
    true
}

/// Whether two texts hold the same characters.
pub fn same_text(left: &str, right: &str) -> (same: bool)
    ensures
        same == (left@ == right@),
{
    if left.unicode_len() != right.unicode_len() {
        return false;
    }
    let same = starts_with(left, right);
    proof {
        if same {
            assert(left@.subrange(0, right@.len() as int) =~= left@);
        } else {
            assert(right@.subrange(0, right@.len() as int) =~= right@);
        }
    }
    same
}

/// Whether Unicode counts `c` as white space.
pub uninterp spec fn is_white_space(c: char) -> bool;

/// Calls `char::is_whitespace`, which tells whether a character has the
/// Unicode property `White_Space`. The contract gives the answer a name and
/// claims no more than that it depends on the character alone.
#[verifier::external_body]
pub(crate) fn white_space(c: char) -> (white: bool)
    ensures
        white == is_white_space(c),
{
    c.is_whitespace()
}

/// `text` without the white space it begins with.
pub open spec fn trimmed_start(text: Seq<char>) -> Seq<char>
    decreases text.len(),
{
    if text.len() > 0 && is_white_space(text.first()) {
        trimmed_start(text.drop_first())
    } else {
        text
    }
}

/// `text` without the white space it ends with.
pub open spec fn trimmed_end(text: Seq<char>) -> Seq<char>
    decreases text.len(),
{
    if text.len() > 0 && is_white_space(text.last()) {
        trimmed_end(text.drop_last())
    } else {
        text
    }
}

/// `text` without the white space at its two ends.
pub open spec fn trimmed(text: Seq<char>) -> Seq<char> {
    trimmed_end(trimmed_start(text))
}

/// Cuts the white space off both ends of `text`.
pub fn trim<'a>(text: &'a str) -> (cut: &'a str)
    ensures
        cut@ == trimmed(text@),
{
    let len = text.unicode_len();
    let mut from: usize = 0;
    assert(text@.skip(0) =~= text@);
    loop
        invariant
            from <= len,
            len == text@.len(),
            trimmed_start(text@) == trimmed_start(text@.skip(from as int)),
        ensures
            from <= len,
            trimmed_start(text@) == text@.skip(from as int),
        decreases len - from,
    {
        if from == len {
            break ;
        }
        if !white_space(text.get_char(from)) {
            break ;
        }
        assert(text@.skip(from as int).drop_first() =~= text@.skip(from + 1));
        from = from + 1;
    }
    let mut to: usize = len;
    assert(text@.subrange(from as int, len as int) =~= text@.skip(from as int));
    loop
        invariant
            from <= to <= len,
            len == text@.len(),
            trimmed(text@) == trimmed_end(text@.subrange(from as int, to as int)),
        ensures
            from <= to <= len,
            trimmed(text@) == text@.subrange(from as int, to as int),
        decreases to - from,
    {
        if to == from {
            break ;
        }
        if !white_space(text.get_char(to - 1)) {
            break ;
        }
        assert(text@.subrange(from as int, to as int).drop_last() =~= text@.subrange(
            from as int,
            to - 1,
        ));
        to = to - 1;
    }
    text.substring_char(from, to)
}

} // verus!
