//! Small helpers on strings, seen as sequences of characters.

use vstd::prelude::*;

verus! {

/// The characters of a string, in order.
pub fn chars_of(s: &str) -> (chars: Vec<char>)
    ensures
        chars@ == s@,
{
    let mut chars: Vec<char> = Vec::new();
    for c in it: s.chars()
        invariant
            chars@ == it.seq().take(it.index() as int),
    {
        chars.push(c);
    }
    chars
}

/// Tells whether `prefix` stands in `text` at position `start`. Behind the
/// end of the text nothing stands.
pub fn has_prefix_at(text: &Vec<char>, start: usize, prefix: &Vec<char>) -> (found: bool)
    ensures
        found == (start <= text.len() && prefix@.is_prefix_of(text@.skip(start as int))),
{
    if start > text.len() || prefix.len() > text.len() - start {
        return false;
    }
    let mut i: usize = 0;
    while i < prefix.len()
        invariant
            start <= text.len(),
            prefix.len() <= text.len() - start,
            i <= prefix.len(),
            forall|k: int| 0 <= k < i ==> prefix@[k] == text@[start + k],
        decreases prefix.len() - i,
    {
        if prefix[i] != text[start + i] {
            assert(text@.skip(start as int)[i as int] == text@[start + i]);
            return false;
        }
        i += 1;
    }
    assert(prefix@ =~= text@.skip(start as int).subrange(0, prefix@.len() as int));
    true
}

/// Tells whether the character `wanted` occurs in `text` at or after `start`.
/// Behind the end of the text nothing occurs.
pub fn contains_from(text: &Vec<char>, start: usize, wanted: char) -> (found: bool)
    ensures
        found == (start <= text.len() && text@.skip(start as int).contains(wanted)),
{
    if start > text.len() {
        return false;
    }
    let mut i: usize = start;
    while i < text.len()
        invariant
            start <= i <= text.len(),
            forall|k: int| start <= k < i ==> text@[k] != wanted,
        decreases text.len() - i,
    {
        if text[i] == wanted {
            assert(text@.skip(start as int)[i - start] == wanted);
            return true;
        }
        i += 1;
    }
    assert forall|k: int| 0 <= k < text@.skip(start as int).len() implies text@.skip(
        start as int,
    )[k] != wanted by {
        assert(text@.skip(start as int)[k] == text@[start + k]);
    }
    false
}

/// The parts in order, with the separator between each two neighbours.
pub open spec fn joined(parts: Seq<String>, separator: Seq<char>) -> Seq<char>
    decreases parts.len(),
{
    if parts.len() == 0 {
        Seq::empty()
    } else if parts.len() == 1 {
        parts[0]@
    } else {
        joined(parts.drop_last(), separator) + separator + parts.last()@
    }
}

/// Joins the parts into one string, with the separator between each two
/// neighbours.
pub fn join(parts: &Vec<String>, separator: &str) -> (line: String)
    ensures
        line@ == joined(parts@, separator@),
{
    let mut line = String::new();
    let mut i: usize = 0;
    while i < parts.len()
        invariant
            i <= parts.len(),
            line@ == joined(parts@.take(i as int), separator@),
        decreases parts.len() - i,
    {
        if i > 0 {
            line.append(separator);
        }
        line.append(parts[i].as_str());
        proof {
            let before = parts@.take(i as int);
            let after = parts@.take(i + 1);
            assert(after.drop_last() =~= before);
            assert(after.last() == parts@[i as int]);
        }
        i += 1;
    }
    assert(parts@.take(parts.len() as int) =~= parts@);
    line
}

} // verus!
