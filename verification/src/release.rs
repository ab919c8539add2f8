//! The `Release` index: one eight-line block per release row, blocks
//! concatenated in fetch order.

use vstd::prelude::*;
use vstd::string::StringExecFns;

use crate::rows::ReleaseInfo;
use crate::text::count_char;
use crate::text::lemma_count_char_add;
use crate::text::lemma_line_newlines;
use crate::text::line;
use crate::text::no_newlines;
use crate::text::push_line;

verus! {

/// The block emitted for one release row: eight labelled lines in fixed
/// order, each terminated by a newline, with no separator after the last.
pub open spec fn release_block(r: ReleaseInfo) -> Seq<char> {
    line("Origin: "@, r.origin@) + line("Label: "@, r.label@) + line("Suite: "@, r.suite@) + line(
        "Version: "@,
        r.version@,
    ) + line("Codename: "@, r.codename@) + line("Architectures: "@, r.architectures@) + line(
        "Components: "@,
        r.components@,
    ) + line("Description: "@, r.description@)
}

/// The whole `Release` body: the blocks of all rows, in order.
pub open spec fn release_output(rs: Seq<ReleaseInfo>) -> Seq<char>
    decreases rs.len(),
{
    if rs.len() == 0 {
        Seq::empty()
    } else {
        release_output(rs.drop_last()) + release_block(rs.last())
    }
}

fn push_release_block(out: &mut String, r: &ReleaseInfo)
    ensures
        final(out)@ == old(out)@ + release_block(*r),
{
    push_line(out, "Origin: ", r.origin.as_str());
    push_line(out, "Label: ", r.label.as_str());
    push_line(out, "Suite: ", r.suite.as_str());
    push_line(out, "Version: ", r.version.as_str());
    push_line(out, "Codename: ", r.codename.as_str());
    push_line(out, "Architectures: ", r.architectures.as_str());
    push_line(out, "Components: ", r.components.as_str());
    push_line(out, "Description: ", r.description.as_str());
    proof {
        assert(out@ =~= old(out)@ + release_block(*r));
    }
}

/// Formats the `Release` body for the given rows, in their order.
pub fn format_release(releases: &Vec<ReleaseInfo>) -> (out: String)
    ensures
        out@ == release_output(releases@),
{
    let mut out = String::new();
    let mut i: usize = 0;
    while i < releases.len()
        invariant
            i <= releases@.len(),
            out@ == release_output(releases@.take(i as int)),
        decreases releases@.len() - i,
    {
        push_release_block(&mut out, &releases[i]);
        proof {
            let t = releases@.take(i as int + 1);
            assert(t.drop_last() =~= releases@.take(i as int));
            assert(t.last() == releases@[i as int]);
        }
        i += 1;
    }
    proof {
        assert(releases@.take(releases@.len() as int) =~= releases@);
    }
    out
}

/// On an empty fetch result the `Release` body is the empty string.
pub proof fn lemma_release_empty()
    ensures
        release_output(Seq::empty()) == Seq::<char>::empty(),
{
}

/// On a single row whose fields stay on one line, the `Release` body is that
/// row's block alone: exactly eight newline-terminated lines, with no
/// trailing blank line (the block does not end in two newlines).
pub proof fn lemma_release_single_row(r: ReleaseInfo)
    requires
        no_newlines(r.origin@),
        no_newlines(r.label@),
        no_newlines(r.suite@),
        no_newlines(r.version@),
        no_newlines(r.codename@),
        no_newlines(r.architectures@),
        no_newlines(r.components@),
        no_newlines(r.description@),
    ensures
        release_output(seq![r]) == release_block(r),
        count_char(release_block(r), '\n') == 8,
        release_block(r).len() >= 2,
        release_block(r).last() == '\n',
        release_block(r)[release_block(r).len() - 2] != '\n',
{
    assert(seq![r].drop_last() =~= Seq::<ReleaseInfo>::empty());
    assert(release_output(Seq::<ReleaseInfo>::empty()) == Seq::<char>::empty());
    assert(seq![r].last() == r);
    assert(release_output(seq![r]) =~= release_block(r));
    reveal_strlit("Origin: ");
    reveal_strlit("Label: ");
    reveal_strlit("Suite: ");
    reveal_strlit("Version: ");
    reveal_strlit("Codename: ");
    reveal_strlit("Architectures: ");
    reveal_strlit("Components: ");
    reveal_strlit("Description: ");
    assert(no_newlines("Origin: "@));
    assert(no_newlines("Label: "@));
    assert(no_newlines("Suite: "@));
    assert(no_newlines("Version: "@));
    assert(no_newlines("Codename: "@));
    assert(no_newlines("Architectures: "@));
    assert(no_newlines("Components: "@));
    assert(no_newlines("Description: "@));
    let l1 = line("Origin: "@, r.origin@);
    let l2 = line("Label: "@, r.label@);
    let l3 = line("Suite: "@, r.suite@);
    let l4 = line("Version: "@, r.version@);
    let l5 = line("Codename: "@, r.codename@);
    let l6 = line("Architectures: "@, r.architectures@);
    let l7 = line("Components: "@, r.components@);
    let l8 = line("Description: "@, r.description@);
    lemma_line_newlines("Origin: "@, r.origin@);
    lemma_line_newlines("Label: "@, r.label@);
    lemma_line_newlines("Suite: "@, r.suite@);
    lemma_line_newlines("Version: "@, r.version@);
    lemma_line_newlines("Codename: "@, r.codename@);
    lemma_line_newlines("Architectures: "@, r.architectures@);
    lemma_line_newlines("Components: "@, r.components@);
    lemma_line_newlines("Description: "@, r.description@);
    lemma_count_char_add(l1, l2, '\n');
    lemma_count_char_add(l1 + l2, l3, '\n');
    lemma_count_char_add(l1 + l2 + l3, l4, '\n');
    lemma_count_char_add(l1 + l2 + l3 + l4, l5, '\n');
    lemma_count_char_add(l1 + l2 + l3 + l4 + l5, l6, '\n');
    lemma_count_char_add(l1 + l2 + l3 + l4 + l5 + l6, l7, '\n');
    lemma_count_char_add(l1 + l2 + l3 + l4 + l5 + l6 + l7, l8, '\n');
    let b = release_block(r);
    assert(b.last() == l8.last());
    assert(b[b.len() - 2] == l8[l8.len() - 2]);
    if r.description@.len() == 0 {
        assert(l8[l8.len() - 2] == "Description: "@["Description: "@.len() - 1]);
    } else {
        assert(l8[l8.len() - 2] == r.description@[r.description@.len() - 1]);
    }
}

/// Formatting is order-preserving and stateless: the body of a concatenated
/// fetch result is the concatenation of the bodies of its parts.
pub proof fn lemma_release_output_concat(a: Seq<ReleaseInfo>, b: Seq<ReleaseInfo>)
    ensures
        release_output(a + b) == release_output(a) + release_output(b),
    decreases b.len(),
{
    if b.len() == 0 {
        assert(a + b =~= a);
        assert(release_output(a) + release_output(b) =~= release_output(a));
    } else {
        lemma_release_output_concat(a, b.drop_last());
        assert((a + b).drop_last() =~= a + b.drop_last());
        assert((a + b).last() == b.last());
        assert(release_output(a) + (release_output(b.drop_last()) + release_block(b.last()))
            =~= (release_output(a) + release_output(b.drop_last())) + release_block(b.last()));
    }
}

} // verus!
