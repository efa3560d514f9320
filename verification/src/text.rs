//! Text: the identifier in front of a heading, prefixes, and equality of
//! string slices.

use vstd::prelude::*;
use vstd::std_specs::iter::IteratorSpec;
use vstd::string::StrSliceExecFns;

verus! {

/// `part` stands in `text` at index `at`.
pub open spec fn stands_at(text: Seq<char>, part: Seq<char>, at: int) -> bool {
    &&& 0 <= at
    &&& at + part.len() <= text.len()
    &&& text.subrange(at, at + part.len()) == part
}

/// `text` holds `part` as it stands, somewhere.
pub open spec fn holds(text: Seq<char>, part: Seq<char>) -> bool {
    exists|at: int| stands_at(text, part, at)
}

/// The separator `" - "` stands in `s` at index `i`.
pub open spec fn separator_at(s: Seq<char>, i: int) -> bool {
    &&& 0 <= i
    &&& i + 3 <= s.len()
    &&& s[i] == ' '
    &&& s[i + 1] == '-'
    &&& s[i + 2] == ' '
}

/// `s` holds the separator `" - "` somewhere.
pub open spec fn has_separator(s: Seq<char>) -> bool {
    exists|i: int| separator_at(s, i)
}

/// `i` is where the first separator of `s` stands.
pub open spec fn is_first_separator(s: Seq<char>, i: int) -> bool {
    &&& separator_at(s, i)
    &&& forall|j: int| 0 <= j < i ==> !separator_at(s, j)
}

/// The identifier of a heading of the form `ID - title`: what stands before
/// its first separator. A heading without separator has none.
pub open spec fn identifier_of(s: Seq<char>) -> Option<Seq<char>> {
    if has_separator(s) {
        Some(s.subrange(0, choose|i: int| is_first_separator(s, i)))
    } else {
        None
    }
}

/// A text whose first separator stands at `i` has the identifier in front of
/// `i`.
pub proof fn lemma_identifier_at(s: Seq<char>, i: int)
    requires
        is_first_separator(s, i),
    ensures
        identifier_of(s) == Some(s.subrange(0, i)),
{
    let k = choose|k: int| is_first_separator(s, k);
    assert(is_first_separator(s, k));
    if k < i {
        assert(!separator_at(s, k));
    }
    if i < k {
        assert(!separator_at(s, i));
    }
}

/// Takes the identifier out of a heading of the form `ID - title`: the text
/// before the first `" - "`. `None` when the heading holds no `" - "`.
pub fn extract_identifier(input: &str) -> (id: Option<&str>)
    ensures
        match id {
            Some(id) => identifier_of(input@) == Some(id@),
            None => identifier_of(input@).is_none(),
        },
{
    let length = input.unicode_len();
    let mut read: usize = 0;
    let mut before: char = ' ';
    let mut last: char = ' ';
    for c in it: input.chars()
        invariant
            it.seq() == input@,
            input@.len() == length,
            read == it.index(),
            read >= 1 ==> last == input@[read - 1],
            read >= 2 ==> before == input@[read - 2],
            forall|j: int| 0 <= j && j + 3 <= read ==> !separator_at(input@, j),
    {
        if read >= 2 && before == ' ' && last == '-' && c == ' ' {
            proof {
                lemma_identifier_at(input@, read - 2);
            }
            return Some(input.substring_char(0, read - 2));
        }
        before = last;
        last = c;
        read = read + 1;
    }
    None
}

/// Whether `text` begins with `prefix`.
pub fn starts_with(text: &str, prefix: &str) -> (found: bool)
    ensures
        found == prefix@.is_prefix_of(text@),
{
    let mut rest = text.chars();
    for c in it: prefix.chars()
        invariant
            it.seq() == prefix@,
            it.index() <= text@.len(),
            rest.remaining() == text@.skip(it.index() as int),
            forall|j: int| 0 <= j < it.index() ==> prefix@[j] == text@[j],
    {
        match rest.next() {
            Some(other) => {
                if other != c {
                    assert(!prefix@.is_prefix_of(text@)) by {
                        if prefix@.len() <= text@.len() {
                            assert(text@.subrange(0, prefix@.len() as int)[it.index() as int]
                                == text@[it.index() as int]);
                        }
                    }
                    return false;
                }
            },
            None => {
                return false;
            },
        }
    }
    true
}

/// Whether two string slices hold the same text.
pub fn same_text(left: &str, right: &str) -> (same: bool)
    ensures
        same == (left@ == right@),
{
    let mut rest = right.chars();
    for c in it: left.chars()
        invariant
            it.seq() == left@,
            it.index() <= right@.len(),
            rest.remaining() == right@.skip(it.index() as int),
            forall|j: int| 0 <= j < it.index() ==> left@[j] == right@[j],
    {
        match rest.next() {
            Some(other) => {
                if other != c {
                    return false;
                }
            },
            None => {
                return false;
            },
        }
    }
    let more = rest.next();
    assert(more.is_none() ==> left@ =~= right@);
    more.is_none()
}

} // verus!
