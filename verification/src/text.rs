//! Comparing a text with a word, and finding the colons that part its fields.
use vstd::prelude::*;
use vstd::std_specs::iter::IteratorSpec;
use vstd::string::StrSliceExecFns;

verus! {

/// Whether `text` spells exactly `word`.
///
/// The lengths are compared first, so a `text` of another length costs one
/// pass over it and nothing more.
pub fn spells(text: &str, word: &str) -> (same: bool)
    ensures
        same == (text@ == word@),
{
    let n = word.unicode_len();
    if text.unicode_len() != n {
        return false;
    }
    let mut i: usize = 0;
    while i < n
        invariant
            i <= n,
            n == word@.len(),
            n == text@.len(),
            forall|j: int| 0 <= j < i ==> text@[j] == word@[j],
        decreases n - i,
    {
        if text.get_char(i) != word.get_char(i) {
            return false;
        }
        i += 1;
    }
    assert(text@ =~= word@);
    true
}

/// Where the colon-separated field that starts at `from` ends: the index of
/// the first colon at or after `from`, or the length of `text` if there is
/// none.
pub open spec fn field_end(text: Seq<char>, from: int) -> int
    decreases text.len() - from,
{
    if from < 0 || from >= text.len() {
        text.len() as int
    } else if text[from] == ':' {
        from
    } else {
        field_end(text, from + 1)
    }
}

/// `field_end` is the least index at or after `from` that holds a colon, and
/// the length of the text where no index does.
pub proof fn lemma_field_end(text: Seq<char>, from: int)
    requires
        0 <= from <= text.len(),
    ensures
        from <= field_end(text, from) <= text.len(),
        field_end(text, from) < text.len() ==> text[field_end(text, from)] == ':',
        forall|j: int| from <= j < field_end(text, from) ==> text[j] != ':',
    decreases text.len() - from,
{
    if from < text.len() && text[from] != ':' {
        lemma_field_end(text, from + 1);
    }
}

/// The indices of the first colon of `text` and of the first colon after
/// it; the length of `text` stands for a colon that is not there.
pub fn first_two_colons(text: &str) -> (ends: (usize, usize))
    ensures
        ends.0 == field_end(text@, 0),
        ends.1 == field_end(text@, ends.0 + 1),
        ends.0 <= ends.1 <= text@.len(),
        ends.0 < text@.len() ==> ends.0 < ends.1,
{
    let n = text.unicode_len();
    let mut first: usize = n;
    let mut second: usize = n;
    let mut seen: usize = 0;
    let mut i: usize = 0;
    let mut it = text.chars();
    loop
        invariant
            n == text@.len(),
            i <= n,
            it.remaining() == text@.skip(i as int),
            seen <= 2,
            seen == 0 ==> first == n && second == n && forall|j: int|
                0 <= j < i ==> text@[j] != ':',
            seen >= 1 ==> first < i && text@[first as int] == ':' && forall|j: int|
                0 <= j < first ==> text@[j] != ':',
            seen == 1 ==> second == n && forall|j: int| first < j < i ==> text@[j] != ':',
            seen == 2 ==> first < second < i && text@[second as int] == ':' && forall|j: int|
                first < j < second ==> text@[j] != ':',
        ensures
            seen == 2 || i == n,
        decreases n - i,
    {
        if seen == 2 {
            break;
        }
        match it.next() {
            Some(c) => {
                if c == ':' {
                    if seen == 0 {
                        first = i;
                    } else {
                        second = i;
                    }
                    seen += 1;
                }
                i += 1;
            },
            None => {
                break;
            },
        }
    }
    proof {
        lemma_field_end(text@, 0);
        if first < n {
            lemma_field_end(text@, first + 1);
        }
    }
    (first, second)
}

} // verus!
