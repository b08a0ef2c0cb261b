use vstd::prelude::*;

verus! {

/// Where the first space of `text` stands; the length of `text` where it
/// holds none.
pub open spec fn first_space(text: Seq<char>) -> int
    decreases text.len(),
{
    if text.len() == 0 || text[0] == ' ' {
        0
    } else {
        1 + first_space(text.drop_first())
    }
}

/// What stands before the first space of `text`: the whole of it where it
/// holds none.
pub open spec fn head(text: Seq<char>) -> Seq<char> {
    text.take(first_space(text))
}

/// What follows the first space of `text`, if it holds one.
pub open spec fn tail(text: Seq<char>) -> Option<Seq<char>> {
    if first_space(text) < text.len() {
        Some(text.skip(first_space(text) + 1))
    } else {
        None
    }
}

/// `first_space` names a place within the text or its end, no space stands
/// before that place, and a space stands at it unless it is the end.
pub proof fn lemma_first_space(text: Seq<char>)
    ensures
        0 <= first_space(text) <= text.len(),
        forall|j: int| 0 <= j < first_space(text) ==> text[j] != ' ',
        first_space(text) < text.len() ==> text[first_space(text)] == ' ',
    decreases text.len(),
{
    if text.len() == 0 || text[0] == ' ' {
    } else {
        let rest = text.drop_first();
        lemma_first_space(rest);
        assert forall|j: int| 0 <= j < first_space(text) implies text[j] != ' ' by {
            if j > 0 {
                assert(text[j] == rest[j - 1]);
            }
        }
        if first_space(text) < text.len() {
            assert(text[first_space(text)] == rest[first_space(rest)]);
        }
    }
}

/// A place that holds a space, with none before it, is the first space.
pub proof fn lemma_first_space_is(text: Seq<char>, at: int)
    requires
        0 <= at <= text.len(),
        forall|j: int| 0 <= j < at ==> text[j] != ' ',
        at < text.len() ==> text[at] == ' ',
    ensures
        first_space(text) == at,
{
    lemma_first_space(text);
    let found = first_space(text);
    if found < at {
        assert(text[found] == ' ');
    } else if at < found {
        assert(text[at] != ' ');
    }
}

/// Cuts `text` at its first space: what stands before it, and what follows
/// it if there is one.
pub fn split_once(text: &str) -> (parts: (&str, Option<&str>))
    ensures
        parts.0@ == head(text@),
        match parts.1 {
            Some(rest) => tail(text@) == Some(rest@),
            None => tail(text@) is None,
        },
{
    let len = text.unicode_len();
    let mut at: usize = 0;
    let mut found = false;
    let mut seen: usize = 0;
    for c in it: text.chars()
        invariant
            it.seq() == text@,
            len == text@.len(),
            seen == it.index(),
            at <= seen,
            forall|j: int| 0 <= j < at ==> text@[j] != ' ',
            found ==> at < seen && text@[at as int] == ' ',
            !found ==> at == seen,
    {
        if !found {
            if c == ' ' {
                found = true;
            } else {
                at = at + 1;
            }
        }
        seen = seen + 1;
    }
    proof {
        lemma_first_space_is(text@, at as int);
    }
    let first = text.substring_char(0, at);
    if found {
        let rest = text.substring_char(at + 1, len);
        (first, Some(rest))
    } else {
        (first, None)
    }
}

} // verus!
