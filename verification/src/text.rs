//! Character-level building blocks: substituting single characters and
//! shrinking runs of spaces.

use vstd::prelude::*;

verus! {

/// `String::push` appends the given character at the end of the string and
/// leaves the characters before it as they were.
pub assume_specification[ String::push ](s: &mut String, c: char)
    ensures
        final(s)@ == old(s)@.push(c),
;

/// One character after a substitution: `to` where the character is one of
/// `from`, the character itself otherwise.
pub open spec fn substitute(c: char, from: Seq<char>, to: char) -> char {
    if from.contains(c) {
        to
    } else {
        c
    }
}

/// The text with every occurrence of a character of `from` replaced by `to`.
pub open spec fn replace_each(text: Seq<char>, from: Seq<char>, to: char) -> Seq<char> {
    text.map_values(|c: char| substitute(c, from, to))
}

/// The text with every run of spaces shrunk to a single space: a space that
/// directly follows a space is dropped, everything else stays in order.
pub open spec fn collapse_spaces(text: Seq<char>) -> Seq<char>
    decreases text.len(),
{
    if text.len() == 0 {
        text
    } else if text.len() >= 2 && text[text.len() - 1] == ' ' && text[text.len() - 2] == ' ' {
        collapse_spaces(text.drop_last())
    } else {
        collapse_spaces(text.drop_last()).push(text.last())
    }
}

/// Whether two neighbouring characters of the text are both spaces.
pub open spec fn has_double_space(text: Seq<char>) -> bool {
    exists|i: int| 0 <= i && i + 1 < text.len() && text[i] == ' ' && #[trigger] text[i + 1] == ' '
}

/// A text that is not empty keeps its last character when its runs of spaces
/// are shrunk.
pub proof fn lemma_collapse_keeps_last(text: Seq<char>)
    requires
        text.len() > 0,
    ensures
        collapse_spaces(text).len() > 0,
        collapse_spaces(text).last() == text.last(),
    decreases text.len(),
{
    if text.len() >= 2 && text[text.len() - 1] == ' ' && text[text.len() - 2] == ' ' {
        lemma_collapse_keeps_last(text.drop_last());
    }
}

/// After shrinking, no two neighbouring characters are both spaces.
pub proof fn lemma_collapse_leaves_no_double_space(text: Seq<char>)
    ensures
        !has_double_space(collapse_spaces(text)),
    decreases text.len(),
{
    if text.len() > 0 {
        let front = text.drop_last();
        lemma_collapse_leaves_no_double_space(front);
        if !(text.len() >= 2 && text[text.len() - 1] == ' ' && text[text.len() - 2] == ' ') {
            let shrunk = collapse_spaces(front);
            let whole = shrunk.push(text.last());
            if front.len() > 0 {
                lemma_collapse_keeps_last(front);
            }
            assert forall|i: int| 0 <= i && i + 1 < whole.len() implies !(whole[i] == ' '
                && #[trigger] whole[i + 1] == ' ') by {
                if i + 1 < shrunk.len() {
                    assert(whole[i] == shrunk[i] && whole[i + 1] == shrunk[i + 1]);
                }
            }
        }
    }
}

/// A text without two neighbouring spaces is left as it is.
pub proof fn lemma_collapse_fixes_single_spaced(text: Seq<char>)
    requires
        !has_double_space(text),
    ensures
        collapse_spaces(text) == text,
    decreases text.len(),
{
    if text.len() > 0 {
        let front = text.drop_last();
        assert forall|i: int| 0 <= i && i + 1 < front.len() implies !(front[i] == ' '
            && #[trigger] front[i + 1] == ' ') by {
            assert(front[i] == text[i] && front[i + 1] == text[i + 1]);
        }
        lemma_collapse_fixes_single_spaced(front);
        if text.len() >= 2 {
            assert(!(text[text.len() - 2] == ' ' && text[(text.len() - 2) + 1] == ' '));
        }
        assert(front.push(text.last()) =~= text);
    }
}

/// Shrinking twice is shrinking once.
pub proof fn lemma_collapse_idempotent(text: Seq<char>)
    ensures
        collapse_spaces(collapse_spaces(text)) == collapse_spaces(text),
{
    lemma_collapse_leaves_no_double_space(text);
    lemma_collapse_fixes_single_spaced(collapse_spaces(text));
}

/// Shrinking brings in no character: one that the text does not hold, the
/// shrunk text does not hold either.
pub proof fn lemma_collapse_adds_nothing(text: Seq<char>, c: char)
    requires
        !text.contains(c),
    ensures
        !collapse_spaces(text).contains(c),
    decreases text.len(),
{
    if text.len() > 0 {
        let front = text.drop_last();
        assert forall|i: int| 0 <= i < front.len() implies front[i] != c by {
            assert(front[i] == text[i]);
            assert(text.contains(text[i]));
        }
        lemma_collapse_adds_nothing(front, c);
        assert(text.contains(text.last()));
        let shrunk = collapse_spaces(front);
        assert forall|i: int| 0 <= i < shrunk.len() implies shrunk[i] != c by {
            assert(shrunk.contains(shrunk[i]));
        }
    }
}

/// A character map that sends spaces to spaces, and nothing else to a space,
/// can be applied before or after shrinking, with the same result.
pub proof fn lemma_collapse_commutes_with_map(text: Seq<char>, f: spec_fn(char) -> char)
    requires
        forall|c: char| (#[trigger] f(c) == ' ') <==> c == ' ',
    ensures
        collapse_spaces(text.map_values(f)) == collapse_spaces(text).map_values(f),
    decreases text.len(),
{
    if text.len() == 0 {
        assert(collapse_spaces(text.map_values(f)) =~= collapse_spaces(text).map_values(f));
    } else {
        let front = text.drop_last();
        lemma_collapse_commutes_with_map(front, f);
        let mapped = text.map_values(f);
        assert(mapped.drop_last() =~= front.map_values(f));
        assert(mapped.last() == f(text.last()));
        if text.len() >= 2 {
            assert(mapped[mapped.len() - 2] == f(text[text.len() - 2]));
        }
        assert(collapse_spaces(front).push(text.last()).map_values(f) =~= collapse_spaces(
            front,
        ).map_values(f).push(f(text.last())));
    }
}

/// Whether `c` is one of the characters of `set`.
pub fn contains_char(set: &Vec<char>, c: char) -> (found: bool)
    ensures
        found == set@.contains(c),
{
    let mut i: usize = 0;
    while i < set.len()
        invariant
            i <= set.len(),
            forall|j: int| 0 <= j < i ==> set@[j] != c,
        decreases set.len() - i,
    {
        if set[i] == c {
            return true;
        }
        i += 1;
    }
    false
}

/// Replaces every character of `text` that occurs in `from` by `to`.
pub fn replace_chars(text: &str, from: &Vec<char>, to: char) -> (out: String)
    ensures
        out@ == replace_each(text@, from@, to),
{
    let mut out = String::new();
    for c in it: text.chars()
        invariant
            it.seq() == text@,
            out@ == replace_each(text@.take(it.index() as int), from@, to),
    {
        let found = contains_char(from, c);
        let next: char = if found { to } else { c };
        out.push(next);
        proof {
            let k = it.index() as int;
            assert(text@.take(k + 1).drop_last() == text@.take(k));
            assert(replace_each(text@.take(k + 1), from@, to) == replace_each(
                text@.take(k),
                from@,
                to,
            ).push(substitute(text@[k], from@, to)));
        }
    }
    proof {
        assert(text@.take(text@.len() as int) == text@);
    }
    out
}

/// Shrinks every run of spaces in `text` to a single space.
pub fn squeeze_spaces(text: &str) -> (out: String)
    ensures
        out@ == collapse_spaces(text@),
{
    let mut out = String::new();
    let mut after_space = false;
    for c in it: text.chars()
        invariant
            it.seq() == text@,
            out@ == collapse_spaces(text@.take(it.index() as int)),
            after_space == (it.index() > 0 && text@[it.index() - 1] == ' '),
    {
        proof {
            let k = it.index() as int;
            assert(text@.take(k + 1).drop_last() == text@.take(k));
        }
        if !(after_space && c == ' ') {
            out.push(c);
        }
        after_space = c == ' ';
    }
    proof {
        assert(text@.take(text@.len() as int) == text@);
    }
    out
}

} // verus!
