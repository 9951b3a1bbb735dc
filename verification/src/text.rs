use vstd::prelude::*;
use vstd::std_specs::iter::IteratorSpec;

verus! {

/// Where `mark` first stands in `text`, or the length of `text` where it does not occur.
pub open spec fn first_index_of(text: Seq<char>, mark: char) -> int
    decreases text.len(),
{
    if text.len() == 0 {
        0
    } else if text[0] == mark {
        0
    } else {
        1 + first_index_of(text.drop_first(), mark)
    }
}

/// Whether `mark` occurs in `text`.
pub open spec fn has_mark(text: Seq<char>, mark: char) -> bool {
    first_index_of(text, mark) < text.len()
}

/// What stands before the first `mark` in `text`: all of `text` where there is none.
pub open spec fn before_mark(text: Seq<char>, mark: char) -> Seq<char> {
    text.take(first_index_of(text, mark))
}

/// What stands behind the first `mark` in `text`: nothing where there is none.
pub open spec fn after_mark(text: Seq<char>, mark: char) -> Seq<char> {
    if has_mark(text, mark) {
        text.skip(first_index_of(text, mark) + 1)
    } else {
        Seq::empty()
    }
}

/// Whether two texts hold the same characters.
pub fn same_text(a: &str, b: &str) -> (same: bool)
    ensures
        same == (a@ == b@),
{
    let mut left = a.chars();
    let mut right = b.chars();
    let ghost mut i: int = 0;
    loop
        invariant
            0 <= i <= a@.len(),
            i <= b@.len(),
            left.remaining() == a@.skip(i),
            right.remaining() == b@.skip(i),
            a@.take(i) == b@.take(i),
        decreases a@.len() - i,
    {
        let x = left.next();
        let y = right.next();
        match (x, y) {
            (None, None) => {
                assert(a@.take(i) =~= a@ && b@.take(i) =~= b@);
                return true;
            },
            (Some(c), Some(d)) => {
                if c != d {
                    return false;
                }
                proof {
                    i = i + 1;
                }
            },
            _ => {
                return false;
            },
        }
    }
}

/// Finds the first `mark` in `text`.
pub fn find_mark(text: &str, mark: char) -> (at: usize)
    ensures
        at == first_index_of(text@, mark),
        at <= text@.len(),
{
    let n: usize = text.unicode_len();
    let mut chars = text.chars();
    let mut i: usize = 0;
    assert(text@.skip(0) =~= text@);
    while i < n
        invariant
            i <= n,
            n == text@.len(),
            chars.remaining() == text@.skip(i as int),
            first_index_of(text@, mark) == i + first_index_of(text@.skip(i as int), mark),
        decreases n - i,
    {
        let next = chars.next();
        if next == Some(mark) {
            return i;
        }
        i = i + 1;
    }
    i
}

/// Splits `text` at its first `mark`: what stands before it, and what stands behind it.
pub fn split_at_mark(text: &str, mark: char) -> (parts: (String, String))
    ensures
        parts.0@ == before_mark(text@, mark),
        parts.1@ == after_mark(text@, mark),
{
    let n: usize = text.unicode_len();
    let at: usize = find_mark(text, mark);
    let head = text.substring_char(0, at).to_owned();
    if at < n {
        let tail = text.substring_char(at + 1, n).to_owned();
        (head, tail)
    } else {
        (head, String::new())
    }
}

} // verus!
