//! Looking into a text: how it begins, and where a character first stands.

use vstd::prelude::*;

verus! {

/// How many characters stand before the first `stop` in `text`, or in all
/// of it when it holds none.
pub open spec fn length_until(text: Seq<char>, stop: char) -> nat
    decreases text.len(),
{
    if text.len() == 0 || text[0] == stop {
        0
    } else {
        1 + length_until(text.drop_first(), stop)
    }
}

/// A position with no `stop` before it, which is the end of the text or
/// holds a `stop`, is the one that `length_until` gives.
pub proof fn lemma_length_until_is(text: Seq<char>, stop: char, end: int)
    requires
        0 <= end <= text.len(),
        forall|i: int| 0 <= i < end ==> text[i] != stop,
        end < text.len() ==> text[end] == stop,
    ensures
        length_until(text, stop) == end,
    decreases text.len(),
{
    if end > 0 {
        let rest = text.drop_first();
        assert(text[0] != stop);
        assert forall|i: int| 0 <= i < end - 1 implies rest[i] != stop by {
            assert(rest[i] == text[i + 1]);
        }
        if end - 1 < rest.len() {
            assert(rest[end - 1] == text[end]);
        }
        lemma_length_until_is(rest, stop, end - 1);
    }
}

/// The characters of a text.
pub fn chars_of(text: &str) -> (chars: Vec<char>)
    ensures
        chars@ == text@,
{
    let mut chars: Vec<char> = Vec::new();
    for c in iter: text.chars()
        invariant
            iter.seq() == text@,
            chars@ == text@.take(iter.index() as int),
    {
        chars.push(c);
        proof {
            assert(chars@ =~= text@.take(iter.index() + 1));
        }
    }
    proof {
        assert(text@.take(text@.len() as int) =~= text@);
    }
    chars
}

/// The position of the first `stop` in `chars[from..]`, as a position in
/// `chars`; the length of `chars` when there is none.
pub fn position_of(chars: &Vec<char>, from: usize, stop: char) -> (end: usize)
    requires
        from <= chars@.len(),
    ensures
        end == from + length_until(chars@.skip(from as int), stop),
        from <= end <= chars@.len(),
        forall|i: int| from <= i < end ==> chars@[i] != stop,
        end < chars@.len() ==> chars@[end as int] == stop,
{
    let mut end: usize = from;
    while end < chars.len() && chars[end] != stop
        invariant
            from <= end <= chars@.len(),
            forall|i: int| from <= i < end ==> chars@[i] != stop,
        decreases chars@.len() - end,
    {
        end = end + 1;
    }
    proof {
        let rest = chars@.skip(from as int);
        assert forall|i: int| 0 <= i < end - from implies rest[i] != stop by {
            assert(rest[i] == chars@[from + i]);
        }
        lemma_length_until_is(rest, stop, end - from);
    }
    end
}

/// Whether `text` begins with all of `prefix`.
pub open spec fn begins_with(text: Seq<char>, prefix: Seq<char>) -> bool {
    text.len() >= prefix.len() && text.subrange(0, prefix.len() as int) == prefix
}

/// Whether `chars` begins with all of `prefix`.
pub fn starts_with(chars: &Vec<char>, prefix: &str) -> (yes: bool)
    ensures
        yes == begins_with(chars@, prefix@),
{
    let wanted = chars_of(prefix);
    if chars.len() < wanted.len() {
        return false;
    }
    let ghost head = chars@.subrange(0, wanted@.len() as int);
    let mut index: usize = 0;
    while index < wanted.len()
        invariant
            wanted@ == prefix@,
            wanted@.len() <= chars@.len(),
            head == chars@.subrange(0, wanted@.len() as int),
            index <= wanted@.len(),
            forall|i: int| 0 <= i < index ==> head[i] == wanted@[i],
        decreases wanted@.len() - index,
    {
        if chars[index] != wanted[index] {
            proof {
                assert(head[index as int] == chars@[index as int]);
            }
            return false;
        }
        proof {
            assert(head[index as int] == chars@[index as int]);
        }
        index = index + 1;
    }
    proof {
        assert(head =~= prefix@);
    }
    true
}

} // verus!
