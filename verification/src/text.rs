//! Where a text occurs in another: the vocabulary of the statements about
//! rendered styles.

use vstd::prelude::*;

verus! {

/// Whether `pattern` stands in `text` at the position `at`.
pub open spec fn occurs_at(text: Seq<char>, pattern: Seq<char>, at: int) -> bool {
    &&& 0 <= at
    &&& at + pattern.len() <= text.len()
    &&& text.subrange(at, at + pattern.len()) == pattern
}

/// Whether `pattern` stands anywhere in `text`.
pub open spec fn contains_text(text: Seq<char>, pattern: Seq<char>) -> bool {
    exists|at: int| occurs_at(text, pattern, at)
}

/// Whether the character `c` is nowhere in `text`.
pub open spec fn free_of(text: Seq<char>, c: char) -> bool {
    forall|i: int| 0 <= i < text.len() ==> text[i] != c
}

/// Where a pattern occurs, the text holds the pattern's characters.
pub proof fn lemma_occurrence_chars(text: Seq<char>, pattern: Seq<char>, at: int, i: int)
    requires
        occurs_at(text, pattern, at),
        0 <= i < pattern.len(),
    ensures
        text[at + i] == pattern[i],
{
    assert(text.subrange(at, at + pattern.len())[i] == text[at + i]);
}

/// A part of a text occurs where it was put.
pub proof fn lemma_part_occurs(left: Seq<char>, part: Seq<char>, right: Seq<char>)
    ensures
        occurs_at(left + part + right, part, left.len() as int),
{
    let text = left + part + right;
    assert(text.subrange(left.len() as int, (left.len() + part.len()) as int) =~= part);
}

/// An occurrence that lies within one part of a text is an occurrence in
/// that part, and the other way round.
pub proof fn lemma_occurrence_within_part(
    left: Seq<char>,
    part: Seq<char>,
    right: Seq<char>,
    pattern: Seq<char>,
    at: int,
)
    requires
        0 <= at,
        at + pattern.len() <= part.len(),
    ensures
        occurs_at(left + part + right, pattern, left.len() + at) <==> occurs_at(part, pattern, at),
{
    let text = left + part + right;
    assert(text.subrange(left.len() + at, left.len() + at + pattern.len()) =~= part.subrange(
        at,
        at + pattern.len(),
    ));
}

/// Texts that are free of a character stay so when they are joined.
pub proof fn lemma_free_of_joined(left: Seq<char>, right: Seq<char>, c: char)
    requires
        free_of(left, c),
        free_of(right, c),
    ensures
        free_of(left + right, c),
{
    assert forall|i: int| 0 <= i < (left + right).len() implies (left + right)[i] != c by {
        if i < left.len() {
            assert((left + right)[i] == left[i]);
        } else {
            assert((left + right)[i] == right[i - left.len()]);
        }
    }
}

} // verus!
