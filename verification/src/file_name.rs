//! Splitting a file's base name into stem and extension at its last dot.

use vstd::prelude::*;
use vstd::string::StrSliceExecFns;

verus! {

/// The position of the last dot of the name, if it has one.
pub open spec fn last_dot(name: Seq<char>) -> Option<int>
    decreases name.len(),
{
    if name.len() == 0 {
        None
    } else if name.last() == '.' {
        Some(name.len() - 1)
    } else {
        last_dot(name.drop_last())
    }
}

/// The stem: what stands before the last dot, or the whole name where it has
/// no dot.
pub open spec fn stem_of(name: Seq<char>) -> Seq<char> {
    match last_dot(name) {
        Some(dot) => name.take(dot),
        None => name,
    }
}

/// The extension: what stands after the last dot, and nothing where the name
/// has no dot or ends in one.
pub open spec fn extension_of(name: Seq<char>) -> Seq<char> {
    match last_dot(name) {
        Some(dot) => name.skip(dot + 1),
        None => Seq::empty(),
    }
}

/// Where the last dot is, it is a dot inside the name and no dot follows it;
/// where there is none, the name holds no dot at all.
pub proof fn lemma_last_dot(name: Seq<char>)
    ensures
        match last_dot(name) {
            Some(dot) => 0 <= dot < name.len() && name[dot] == '.' && forall|i: int|
                dot < i < name.len() ==> name[i] != '.',
            None => forall|i: int| 0 <= i < name.len() ==> name[i] != '.',
        },
    decreases name.len(),
{
    if name.len() > 0 && name.last() != '.' {
        let front = name.drop_last();
        lemma_last_dot(front);
        assert(forall|i: int| 0 <= i < front.len() ==> front[i] == name[i]);
    }
}

/// Stem and extension, joined by a dot where there is an extension, give the
/// name back, unless the name ends in a dot: that dot is lost.
pub proof fn lemma_split_then_join(name: Seq<char>)
    ensures
        extension_of(name).len() > 0 ==> stem_of(name) + seq!['.'] + extension_of(name) == name,
        last_dot(name) is None ==> stem_of(name) == name && extension_of(name).len() == 0,
        last_dot(name) is Some && extension_of(name).len() == 0 ==> stem_of(name).push('.')
            == name,
{
    lemma_last_dot(name);
    match last_dot(name) {
        Some(dot) => {
            assert(name.take(dot) + seq!['.'] + name.skip(dot + 1) =~= name);
            if name.skip(dot + 1).len() == 0 {
                assert(name.take(dot).push('.') =~= name);
            }
        },
        None => {},
    }
}

/// Splits a base name into stem and extension.
pub fn split_file_name(name: &str) -> (parts: (String, String))
    ensures
        parts.0@ == stem_of(name@),
        parts.1@ == extension_of(name@),
{
    let len = name.unicode_len();
    let mut dot: Option<usize> = None;
    let mut count: usize = 0;
    for c in it: name.chars()
        invariant
            it.seq() == name@,
            len == name@.len(),
            count == it.index(),
            match dot {
                Some(d) => last_dot(name@.take(count as int)) == Some(d as int),
                None => last_dot(name@.take(count as int)) == None::<int>,
            },
    {
        proof {
            assert(name@.take(count + 1).drop_last() == name@.take(count as int));
        }
        if c == '.' {
            dot = Some(count);
        }
        count += 1;
    }
    proof {
        assert(name@.take(len as int) == name@);
        lemma_last_dot(name@);
    }
    match dot {
        Some(d) => {
            let stem = name.substring_char(0, d).to_owned();
            let extension = name.substring_char(d + 1, len).to_owned();
            proof {
                assert(name@.subrange(0, d as int) == name@.take(d as int));
                assert(name@.subrange(d + 1, len as int) == name@.skip(d + 1));
            }
            (stem, extension)
        },
        None => (name.to_owned(), String::new()),
    }
}

} // verus!
