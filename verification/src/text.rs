//! Building blocks for the plaintext index formats: a labelled line, the
//! characters it contains, and exec helpers that append lines to a buffer.

use vstd::prelude::*;
use vstd::string::StringExecFns;

verus! {

/// One labelled line of an index block: `label` then `value` then a newline.
pub open spec fn line(tag: Seq<char>, value: Seq<char>) -> Seq<char> {
    tag + value + seq!['\n']
}

/// Holds of text that stays on a single line.
pub open spec fn no_newlines(s: Seq<char>) -> bool {
    forall|i: int| 0 <= i < s.len() ==> s[i] != '\n'
}

/// How many times `c` occurs in `s`.
pub open spec fn count_char(s: Seq<char>, c: char) -> nat
    decreases s.len(),
{
    if s.len() == 0 {
        0
    } else {
        count_char(s.drop_last(), c) + (if s.last() == c {
            1nat
        } else {
            0nat
        })
    }
}

pub proof fn lemma_count_char_add(a: Seq<char>, b: Seq<char>, c: char)
    ensures
        count_char(a + b, c) == count_char(a, c) + count_char(b, c),
    decreases b.len(),
{
    if b.len() == 0 {
        assert(a + b =~= a);
    } else {
        lemma_count_char_add(a, b.drop_last(), c);
        assert((a + b).drop_last() =~= a + b.drop_last());
    }
}

pub proof fn lemma_count_char_absent(s: Seq<char>, c: char)
    requires
        forall|i: int| 0 <= i < s.len() ==> s[i] != c,
    ensures
        count_char(s, c) == 0,
    decreases s.len(),
{
    if s.len() > 0 {
        lemma_count_char_absent(s.drop_last(), c);
    }
}

/// A line whose label and value stay on one line contains exactly one newline,
/// and it stands at the end.
pub proof fn lemma_line_newlines(tag: Seq<char>, value: Seq<char>)
    requires
        no_newlines(tag),
        no_newlines(value),
    ensures
        count_char(line(tag, value), '\n') == 1,
        line(tag, value).len() == tag.len() + value.len() + 1,
        line(tag, value).last() == '\n',
{
    let l = line(tag, value);
    lemma_count_char_absent(tag, '\n');
    lemma_count_char_absent(value, '\n');
    lemma_count_char_add(tag, value, '\n');
    lemma_count_char_add(tag + value, seq!['\n'], '\n');
    assert(seq!['\n'].drop_last() =~= Seq::<char>::empty());
    assert(count_char(Seq::<char>::empty(), '\n') == 0);
    assert(count_char(seq!['\n'], '\n') == 1);
}

/// Text on one line stays on one line under concatenation.
pub proof fn lemma_no_newlines_add(a: Seq<char>, b: Seq<char>)
    requires
        no_newlines(a),
        no_newlines(b),
    ensures
        no_newlines(a + b),
{
    assert forall|i: int| 0 <= i < (a + b).len() implies (a + b)[i] != '\n' by {
        if i < a.len() {
            assert((a + b)[i] == a[i]);
        } else {
            assert((a + b)[i] == b[i - a.len()]);
        }
    }
}

/// Appends `tag`, `value` and a newline to `out`.
pub(crate) fn push_line(out: &mut String, tag: &str, value: &str)
    ensures
        final(out)@ == old(out)@ + line(tag@, value@),
{
    out.append(tag);
    out.append(value);
    out.append("\n");
    proof {
        reveal_strlit("\n");
        assert(out@ =~= old(out)@ + line(tag@, value@));
    }
}

} // verus!
