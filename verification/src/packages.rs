//! The `Packages` index: one stanza per visible package row, in fetch order.
//! Every field line, the conditional commercial tag and the blank-line
//! terminator are pinned down exactly.

use vstd::prelude::*;
use vstd::string::StringExecFns;

use crate::numeral::decimal;
use crate::numeral::lemma_decimal_wf;
use crate::numeral::u64_to_decimal;
use crate::rows::PackageInfo;
use crate::text::count_char;
use crate::text::lemma_count_char_add;
use crate::text::lemma_line_newlines;
use crate::text::lemma_no_newlines_add;
use crate::text::line;
use crate::text::no_newlines;
use crate::text::push_line;

verus! {

/// The value of the `Filename:` line: where the package archive is fetched.
pub open spec fn filename_value(base: Seq<char>, name: Seq<char>, ver: Seq<char>) -> Seq<char> {
    base + "/debs/"@ + name + "_"@ + ver + "_iphoneos-arm.deb"@
}

/// The value of the `SileoDepiction:` line.
pub open spec fn sileo_depiction_value(base: Seq<char>, id: Seq<char>) -> Seq<char> {
    base + "/sileodepiction/"@ + id
}

/// The value of the `Depiction:` line.
pub open spec fn depiction_value(base: Seq<char>, id: Seq<char>) -> Seq<char> {
    base + "/depiction/"@ + id
}

/// The fourteen unconditional field lines of a package stanza, in their
/// fixed order.
pub open spec fn package_head(p: PackageInfo, base: Seq<char>) -> Seq<char> {
    line("Package: "@, p.package_id@) + line("Version: "@, p.version@) + line(
        "Section: "@,
        p.section@,
    ) + line("Maintainer: "@, p.developer_name@) + line("Depends: "@, p.depends@) + line(
        "Architecture: "@,
        "iphoneos-arm"@,
    ) + line("Filename: "@, filename_value(base, p.name@, p.version@)) + line(
        "Size: "@,
        decimal(p.version_size as nat),
    ) + line("SHA256: "@, p.version_hash@) + line("Description: "@, p.short_description@) + line(
        "Name: "@,
        p.name@,
    ) + line("Author: "@, p.developer_name@) + line(
        "SileoDepiction: "@,
        sileo_depiction_value(base, p.package_id@),
    ) + line("Depiction: "@, depiction_value(base, p.package_id@))
}

/// The line that marks a paid package.
pub open spec fn tag_line() -> Seq<char> {
    line("Tag: "@, "cydia::commercial"@)
}

/// The commercial tag is present exactly when the price is positive.
pub open spec fn tag_part(p: PackageInfo) -> Seq<char> {
    if p.price > 0 {
        tag_line()
    } else {
        Seq::empty()
    }
}

/// The closing of a stanza: the `Icon:` line and the blank line that
/// separates this block from the next.
pub open spec fn block_end(p: PackageInfo) -> Seq<char> {
    line("Icon: "@, p.icon@) + seq!['\n']
}

/// The whole stanza emitted for one package row.
pub open spec fn package_block(p: PackageInfo, base: Seq<char>) -> Seq<char> {
    package_head(p, base) + tag_part(p) + block_end(p)
}

/// The `Packages` body for the given rows: every row's stanza, in order.
pub open spec fn packages_output(ps: Seq<PackageInfo>, base: Seq<char>) -> Seq<char>
    decreases ps.len(),
{
    if ps.len() == 0 {
        Seq::empty()
    } else {
        packages_output(ps.drop_last(), base) + package_block(ps.last(), base)
    }
}

/// The rows eligible for public listing, in fetch order.
pub open spec fn visible_seq(rows: Seq<PackageInfo>) -> Seq<PackageInfo>
    decreases rows.len(),
{
    if rows.len() == 0 {
        Seq::empty()
    } else if rows.last().package_visible {
        visible_seq(rows.drop_last()).push(rows.last())
    } else {
        visible_seq(rows.drop_last())
    }
}

/// The `Packages` body built from an unfiltered fetch result: stanzas of the
/// visible rows only.
pub open spec fn visible_output(rows: Seq<PackageInfo>, base: Seq<char>) -> Seq<char> {
    packages_output(visible_seq(rows), base)
}

fn push_filename_line(out: &mut String, base_url: &str, name: &str, ver: &str)
    ensures
        final(out)@ == old(out)@ + line("Filename: "@, filename_value(base_url@, name@, ver@)),
{
    out.append("Filename: ");
    out.append(base_url);
    out.append("/debs/");
    out.append(name);
    out.append("_");
    out.append(ver);
    out.append("_iphoneos-arm.deb");
    out.append("\n");
    proof {
        reveal_strlit("\n");
        assert(out@ =~= old(out)@ + line("Filename: "@, filename_value(base_url@, name@, ver@)));
    }
}

fn push_ref_line(out: &mut String, tag: &str, base_url: &str, mid: &str, id: &str)
    ensures
        final(out)@ == old(out)@ + line(tag@, base_url@ + mid@ + id@),
{
    out.append(tag);
    out.append(base_url);
    out.append(mid);
    out.append(id);
    out.append("\n");
    proof {
        reveal_strlit("\n");
        assert(out@ =~= old(out)@ + line(tag@, base_url@ + mid@ + id@));
    }
}

fn push_package_head(out: &mut String, p: &PackageInfo, base_url: &str)
    ensures
        final(out)@ == old(out)@ + package_head(*p, base_url@),
{
    push_line(out, "Package: ", p.package_id.as_str());
    push_line(out, "Version: ", p.version.as_str());
    push_line(out, "Section: ", p.section.as_str());
    push_line(out, "Maintainer: ", p.developer_name.as_str());
    push_line(out, "Depends: ", p.depends.as_str());
    push_line(out, "Architecture: ", "iphoneos-arm");
    push_filename_line(out, base_url, p.name.as_str(), p.version.as_str());
    let size = u64_to_decimal(p.version_size);
    push_line(out, "Size: ", size.as_str());
    push_line(out, "SHA256: ", p.version_hash.as_str());
    push_line(out, "Description: ", p.short_description.as_str());
    push_line(out, "Name: ", p.name.as_str());
    push_line(out, "Author: ", p.developer_name.as_str());
    push_ref_line(out, "SileoDepiction: ", base_url, "/sileodepiction/", p.package_id.as_str());
    push_ref_line(out, "Depiction: ", base_url, "/depiction/", p.package_id.as_str());
    proof {
        assert(out@ =~= old(out)@ + package_head(*p, base_url@));
    }
}

fn push_package_block(out: &mut String, p: &PackageInfo, base_url: &str)
    ensures
        final(out)@ == old(out)@ + package_block(*p, base_url@),
{
    push_package_head(out, p, base_url);
    if p.price > 0 {
        push_line(out, "Tag: ", "cydia::commercial");
    }
    push_line(out, "Icon: ", p.icon.as_str());
    out.append("\n");
    proof {
        reveal_strlit("\n");
        assert(out@ =~= old(out)@ + package_block(*p, base_url@));
    }
}

/// Formats the `Packages` body for rows already screened for visibility,
/// in their order. `base_url` is substituted into the `Filename:`,
/// `SileoDepiction:` and `Depiction:` lines of every stanza.
pub fn format_packages(packages: &Vec<PackageInfo>, base_url: &str) -> (out: String)
    ensures
        out@ == packages_output(packages@, base_url@),
{
    let mut out = String::new();
    let mut i: usize = 0;
    while i < packages.len()
        invariant
            i <= packages@.len(),
            out@ == packages_output(packages@.take(i as int), base_url@),
        decreases packages@.len() - i,
    {
        push_package_block(&mut out, &packages[i], base_url);
        proof {
            let t = packages@.take(i as int + 1);
            assert(t.drop_last() =~= packages@.take(i as int));
            assert(t.last() == packages@[i as int]);
        }
        i += 1;
    }
    proof {
        assert(packages@.take(packages@.len() as int) =~= packages@);
    }
    out
}

/// Formats the `Packages` body from an unfiltered fetch result: rows with
/// `package_visible` unset are skipped, everything else is listed in order.
pub fn packages_body(rows: &Vec<PackageInfo>, base_url: &str) -> (out: String)
    ensures
        out@ == visible_output(rows@, base_url@),
{
    let mut out = String::new();
    let mut i: usize = 0;
    while i < rows.len()
        invariant
            i <= rows@.len(),
            out@ == visible_output(rows@.take(i as int), base_url@),
        decreases rows@.len() - i,
    {
        if rows[i].package_visible {
            push_package_block(&mut out, &rows[i], base_url);
        }
        proof {
            let t = rows@.take(i as int + 1);
            assert(t.drop_last() =~= rows@.take(i as int));
            assert(t.last() == rows@[i as int]);
            if rows@[i as int].package_visible {
                let v = visible_seq(rows@.take(i as int));
                let w = v.push(rows@[i as int]);
                assert(visible_seq(t) == w);
                assert(w.drop_last() =~= v);
                assert(w.last() == rows@[i as int]);
            }
        }
        i += 1;
    }
    proof {
        assert(rows@.take(rows@.len() as int) =~= rows@);
    }
    out
}

/// Splitting the eligible rows anywhere splits the listing the same way:
/// the formatter is order-preserving and stateless.
pub proof fn lemma_packages_output_concat(a: Seq<PackageInfo>, b: Seq<PackageInfo>, base: Seq<char>)
    ensures
        packages_output(a + b, base) == packages_output(a, base) + packages_output(b, base),
    decreases b.len(),
{
    if b.len() == 0 {
        assert(a + b =~= a);
        assert(packages_output(a, base) + packages_output(b, base) =~= packages_output(a, base));
    } else {
        lemma_packages_output_concat(a, b.drop_last(), base);
        assert((a + b).drop_last() =~= a + b.drop_last());
        assert((a + b).last() == b.last());
        assert(packages_output(a, base) + (packages_output(b.drop_last(), base) + package_block(
            b.last(),
            base,
        )) =~= (packages_output(a, base) + packages_output(b.drop_last(), base)) + package_block(
            b.last(),
            base,
        ));
    }
}

/// Visibility screening distributes over concatenation of fetch results.
pub proof fn lemma_visible_seq_add(a: Seq<PackageInfo>, b: Seq<PackageInfo>)
    ensures
        visible_seq(a + b) == visible_seq(a) + visible_seq(b),
    decreases b.len(),
{
    if b.len() == 0 {
        assert(a + b =~= a);
        assert(visible_seq(a) + visible_seq(b) =~= visible_seq(a));
    } else {
        lemma_visible_seq_add(a, b.drop_last());
        assert((a + b).drop_last() =~= a + b.drop_last());
        assert((a + b).last() == b.last());
        if b.last().package_visible {
            assert(visible_seq(a) + visible_seq(b.drop_last()).push(b.last()) =~= (visible_seq(a)
                + visible_seq(b.drop_last())).push(b.last()));
        }
    }
}

/// The round trip for the filtered pipeline: screening and formatting two
/// fetch results separately and concatenating gives the same body as doing
/// it once over their concatenation.
pub proof fn lemma_visible_output_concat(a: Seq<PackageInfo>, b: Seq<PackageInfo>, base: Seq<char>)
    ensures
        visible_output(a + b, base) == visible_output(a, base) + visible_output(b, base),
{
    lemma_visible_seq_add(a, b);
    lemma_packages_output_concat(visible_seq(a), visible_seq(b), base);
}

/// A row whose `package_visible` is unset never reaches the listing: the
/// body built from any fetch result containing it equals the body built
/// from the same result without it.
pub proof fn lemma_invisible_never_listed(
    pre: Seq<PackageInfo>,
    p: PackageInfo,
    post: Seq<PackageInfo>,
    base: Seq<char>,
)
    requires
        !p.package_visible,
    ensures
        visible_output(pre + seq![p] + post, base) == visible_output(pre + post, base),
{
    lemma_visible_seq_add(pre, seq![p]);
    lemma_visible_seq_add(pre + seq![p], post);
    lemma_visible_seq_add(pre, post);
    assert(seq![p].drop_last() =~= Seq::<PackageInfo>::empty());
    assert(visible_seq(Seq::<PackageInfo>::empty()) == Seq::<PackageInfo>::empty());
    assert(visible_seq(seq![p]) == Seq::<PackageInfo>::empty());
    assert(visible_seq(pre) + Seq::<PackageInfo>::empty() =~= visible_seq(pre));
    assert(visible_seq(pre + seq![p] + post) == visible_seq(pre + post));
}

/// A paid package's stanza carries the commercial tag line, standing alone
/// between the `Depiction:` and `Icon:` lines; a free package's stanza
/// carries none.
pub proof fn lemma_commercial_tag(p: PackageInfo, base: Seq<char>)
    ensures
        p.price > 0 ==> package_block(p, base) == package_head(p, base) + tag_line() + block_end(
            p,
        ),
        p.price <= 0 ==> package_block(p, base) == package_head(p, base) + block_end(p),
{
    if p.price <= 0 {
        assert(package_head(p, base) + tag_part(p) =~= package_head(p, base));
    }
}

/// The lines of a package stanza, in emission order: the fourteen head
/// lines, the commercial tag line for a paid package, the `Icon:` line, and
/// the blank line that closes the stanza.
pub open spec fn block_lines(p: PackageInfo, base: Seq<char>) -> Seq<Seq<char>> {
    head_lines(p, base) + (if p.price > 0 {
        seq![tag_line()]
    } else {
        Seq::<Seq<char>>::empty()
    }) + seq![line("Icon: "@, p.icon@), seq!['\n']]
}

/// The fourteen unconditional lines of a stanza, as a list.
pub open spec fn head_lines(p: PackageInfo, base: Seq<char>) -> Seq<Seq<char>> {
    seq![
        line("Package: "@, p.package_id@),
        line("Version: "@, p.version@),
        line("Section: "@, p.section@),
        line("Maintainer: "@, p.developer_name@),
        line("Depends: "@, p.depends@),
        line("Architecture: "@, "iphoneos-arm"@),
        line("Filename: "@, filename_value(base, p.name@, p.version@)),
        line("Size: "@, decimal(p.version_size as nat)),
        line("SHA256: "@, p.version_hash@),
        line("Description: "@, p.short_description@),
        line("Name: "@, p.name@),
        line("Author: "@, p.developer_name@),
        line("SileoDepiction: "@, sileo_depiction_value(base, p.package_id@)),
        line("Depiction: "@, depiction_value(base, p.package_id@)),
    ]
}

/// The flat text of a list of lines, in order.
pub open spec fn concat_lines(ls: Seq<Seq<char>>) -> Seq<char>
    decreases ls.len(),
{
    if ls.len() == 0 {
        Seq::empty()
    } else {
        concat_lines(ls.drop_last()) + ls.last()
    }
}

/// How many of the given lines are exactly `t`.
pub open spec fn count_lines_eq(ls: Seq<Seq<char>>, t: Seq<char>) -> nat
    decreases ls.len(),
{
    if ls.len() == 0 {
        0
    } else {
        count_lines_eq(ls.drop_last(), t) + (if ls.last() == t {
            1nat
        } else {
            0nat
        })
    }
}

proof fn lemma_concat_lines_push(ls: Seq<Seq<char>>, x: Seq<char>)
    ensures
        concat_lines(ls.push(x)) == concat_lines(ls) + x,
{
    assert(ls.push(x).drop_last() =~= ls);
    assert(ls.push(x).last() == x);
}

proof fn lemma_concat_lines_add(a: Seq<Seq<char>>, b: Seq<Seq<char>>)
    ensures
        concat_lines(a + b) == concat_lines(a) + concat_lines(b),
    decreases b.len(),
{
    if b.len() == 0 {
        assert(a + b =~= a);
        assert(concat_lines(a) + concat_lines(b) =~= concat_lines(a));
    } else {
        lemma_concat_lines_add(a, b.drop_last());
        assert((a + b).drop_last() =~= a + b.drop_last());
        assert((a + b).last() == b.last());
        assert(concat_lines(a) + (concat_lines(b.drop_last()) + b.last()) =~= (concat_lines(a)
            + concat_lines(b.drop_last())) + b.last());
    }
}

proof fn lemma_count_lines_absent(ls: Seq<Seq<char>>, t: Seq<char>)
    requires
        forall|i: int| 0 <= i < ls.len() ==> ls[i] != t,
    ensures
        count_lines_eq(ls, t) == 0,
    decreases ls.len(),
{
    if ls.len() > 0 {
        lemma_count_lines_absent(ls.drop_last(), t);
    }
}

proof fn lemma_count_lines_add(a: Seq<Seq<char>>, b: Seq<Seq<char>>, t: Seq<char>)
    ensures
        count_lines_eq(a + b, t) == count_lines_eq(a, t) + count_lines_eq(b, t),
    decreases b.len(),
{
    if b.len() == 0 {
        assert(a + b =~= a);
    } else {
        lemma_count_lines_add(a, b.drop_last(), t);
        assert((a + b).drop_last() =~= a + b.drop_last());
    }
}

proof fn lemma_line_ne_tag(t: Seq<char>, v: Seq<char>)
    requires
        t.len() > 0,
        t[0] != 'T',
    ensures
        line(t, v) != tag_line(),
{
    reveal_strlit("Tag: ");
    assert(line(t, v)[0] == t[0]);
    assert(tag_line()[0] == 'T');
}

/// The flat stanza is exactly its lines laid end to end, and among those
/// lines the commercial tag line stands exactly once for a paid package and
/// never for a free one.
pub proof fn lemma_commercial_tag_once(p: PackageInfo, base: Seq<char>)
    ensures
        concat_lines(block_lines(p, base)) == package_block(p, base),
        count_lines_eq(block_lines(p, base), tag_line()) == if p.price > 0 {
            1nat
        } else {
            0nat
        },
{
    let hl = head_lines(p, base);
    let mid = if p.price > 0 {
        seq![tag_line()]
    } else {
        Seq::<Seq<char>>::empty()
    };
    let el = seq![line("Icon: "@, p.icon@), seq!['\n']];
    let l1 = line("Package: "@, p.package_id@);
    let l2 = line("Version: "@, p.version@);
    let l3 = line("Section: "@, p.section@);
    let l4 = line("Maintainer: "@, p.developer_name@);
    let l5 = line("Depends: "@, p.depends@);
    let l6 = line("Architecture: "@, "iphoneos-arm"@);
    let l7 = line("Filename: "@, filename_value(base, p.name@, p.version@));
    let l8 = line("Size: "@, decimal(p.version_size as nat));
    let l9 = line("SHA256: "@, p.version_hash@);
    let l10 = line("Description: "@, p.short_description@);
    let l11 = line("Name: "@, p.name@);
    let l12 = line("Author: "@, p.developer_name@);
    let l13 = line("SileoDepiction: "@, sileo_depiction_value(base, p.package_id@));
    let l14 = line("Depiction: "@, depiction_value(base, p.package_id@));
    // The flat text of the lines is the stanza.
    assert(concat_lines(Seq::<Seq<char>>::empty()) == Seq::<char>::empty());
    let s0 = Seq::<Seq<char>>::empty();
    let s1 = s0.push(l1);
    let s2 = s1.push(l2);
    let s3 = s2.push(l3);
    let s4 = s3.push(l4);
    let s5 = s4.push(l5);
    let s6 = s5.push(l6);
    let s7 = s6.push(l7);
    let s8 = s7.push(l8);
    let s9 = s8.push(l9);
    let s10 = s9.push(l10);
    let s11 = s10.push(l11);
    let s12 = s11.push(l12);
    let s13 = s12.push(l13);
    let s14 = s13.push(l14);
    lemma_concat_lines_push(s0, l1);
    lemma_concat_lines_push(s1, l2);
    lemma_concat_lines_push(s2, l3);
    lemma_concat_lines_push(s3, l4);
    lemma_concat_lines_push(s4, l5);
    lemma_concat_lines_push(s5, l6);
    lemma_concat_lines_push(s6, l7);
    lemma_concat_lines_push(s7, l8);
    lemma_concat_lines_push(s8, l9);
    lemma_concat_lines_push(s9, l10);
    lemma_concat_lines_push(s10, l11);
    lemma_concat_lines_push(s11, l12);
    lemma_concat_lines_push(s12, l13);
    lemma_concat_lines_push(s13, l14);
    assert(hl =~= s14);
    assert(concat_lines(s14) =~= package_head(p, base));
    if p.price > 0 {
        lemma_concat_lines_push(Seq::<Seq<char>>::empty(), tag_line());
        assert(concat_lines(mid) =~= tag_part(p));
    } else {
        assert(concat_lines(mid) =~= tag_part(p));
    }
    let e0 = Seq::<Seq<char>>::empty();
    let e1 = e0.push(line("Icon: "@, p.icon@));
    let e2 = e1.push(seq!['\n']);
    lemma_concat_lines_push(e0, line("Icon: "@, p.icon@));
    lemma_concat_lines_push(e1, seq!['\n']);
    assert(el =~= e2);
    assert(concat_lines(e2) =~= block_end(p));
    lemma_concat_lines_add(hl, mid);
    lemma_concat_lines_add(hl + mid, el);
    assert(concat_lines(block_lines(p, base)) =~= package_block(p, base));
    // No line but the tag line can be the tag line: every other line opens
    // with a different label.
    reveal_strlit("Package: ");
    reveal_strlit("Version: ");
    reveal_strlit("Section: ");
    reveal_strlit("Maintainer: ");
    reveal_strlit("Depends: ");
    reveal_strlit("Architecture: ");
    reveal_strlit("Filename: ");
    reveal_strlit("Size: ");
    reveal_strlit("SHA256: ");
    reveal_strlit("Description: ");
    reveal_strlit("Name: ");
    reveal_strlit("Author: ");
    reveal_strlit("SileoDepiction: ");
    reveal_strlit("Depiction: ");
    reveal_strlit("Icon: ");
    reveal_strlit("Tag: ");
    lemma_line_ne_tag("Package: "@, p.package_id@);
    lemma_line_ne_tag("Version: "@, p.version@);
    lemma_line_ne_tag("Section: "@, p.section@);
    lemma_line_ne_tag("Maintainer: "@, p.developer_name@);
    lemma_line_ne_tag("Depends: "@, p.depends@);
    lemma_line_ne_tag("Architecture: "@, "iphoneos-arm"@);
    lemma_line_ne_tag("Filename: "@, filename_value(base, p.name@, p.version@));
    lemma_line_ne_tag("Size: "@, decimal(p.version_size as nat));
    lemma_line_ne_tag("SHA256: "@, p.version_hash@);
    lemma_line_ne_tag("Description: "@, p.short_description@);
    lemma_line_ne_tag("Name: "@, p.name@);
    lemma_line_ne_tag("Author: "@, p.developer_name@);
    lemma_line_ne_tag("SileoDepiction: "@, sileo_depiction_value(base, p.package_id@));
    lemma_line_ne_tag("Depiction: "@, depiction_value(base, p.package_id@));
    lemma_line_ne_tag("Icon: "@, p.icon@);
    assert(seq!['\n'] != tag_line()) by {
        assert(seq!['\n'][0] == '\n');
        assert(tag_line()[0] == 'T');
    }
    assert(forall|i: int| 0 <= i < hl.len() ==> hl[i] != tag_line());
    lemma_count_lines_absent(hl, tag_line());
    assert(forall|i: int| 0 <= i < el.len() ==> el[i] != tag_line());
    lemma_count_lines_absent(el, tag_line());
    if p.price > 0 {
        assert(seq![tag_line()].drop_last() =~= Seq::<Seq<char>>::empty());
        assert(count_lines_eq(Seq::<Seq<char>>::empty(), tag_line()) == 0);
        assert(count_lines_eq(mid, tag_line()) == 1);
    } else {
        assert(count_lines_eq(mid, tag_line()) == 0);
    }
    lemma_count_lines_add(hl, mid, tag_line());
    lemma_count_lines_add(hl + mid, el, tag_line());
}

/// With every field on a single line, the newline count of a stanza is
/// exactly its number of lines: fourteen head lines, the tag line for a paid
/// package, the `Icon:` line and the closing blank line.
pub proof fn lemma_block_line_count(p: PackageInfo, base: Seq<char>)
    requires
        no_newlines(base),
        no_newlines(p.package_id@),
        no_newlines(p.name@),
        no_newlines(p.version@),
        no_newlines(p.section@),
        no_newlines(p.developer_name@),
        no_newlines(p.depends@),
        no_newlines(p.version_hash@),
        no_newlines(p.short_description@),
        no_newlines(p.icon@),
    ensures
        count_char(package_block(p, base), '\n') == if p.price > 0 {
            17nat
        } else {
            16nat
        },
{
    reveal_strlit("Package: ");
    reveal_strlit("Version: ");
    reveal_strlit("Section: ");
    reveal_strlit("Maintainer: ");
    reveal_strlit("Depends: ");
    reveal_strlit("Architecture: ");
    reveal_strlit("Filename: ");
    reveal_strlit("Size: ");
    reveal_strlit("SHA256: ");
    reveal_strlit("Description: ");
    reveal_strlit("Name: ");
    reveal_strlit("Author: ");
    reveal_strlit("SileoDepiction: ");
    reveal_strlit("Depiction: ");
    reveal_strlit("Icon: ");
    reveal_strlit("Tag: ");
    reveal_strlit("iphoneos-arm");
    reveal_strlit("cydia::commercial");
    reveal_strlit("/debs/");
    reveal_strlit("_");
    reveal_strlit("_iphoneos-arm.deb");
    reveal_strlit("/sileodepiction/");
    reveal_strlit("/depiction/");
    assert(no_newlines("iphoneos-arm"@));
    assert(no_newlines("cydia::commercial"@));
    assert(no_newlines("/debs/"@));
    assert(no_newlines("_"@));
    assert(no_newlines("_iphoneos-arm.deb"@));
    assert(no_newlines("/sileodepiction/"@));
    assert(no_newlines("/depiction/"@));
    lemma_no_newlines_add(base, "/debs/"@);
    lemma_no_newlines_add(base + "/debs/"@, p.name@);
    lemma_no_newlines_add(base + "/debs/"@ + p.name@, "_"@);
    lemma_no_newlines_add(base + "/debs/"@ + p.name@ + "_"@, p.version@);
    lemma_no_newlines_add(base + "/debs/"@ + p.name@ + "_"@ + p.version@, "_iphoneos-arm.deb"@);
    lemma_no_newlines_add(base, "/sileodepiction/"@);
    lemma_no_newlines_add(base + "/sileodepiction/"@, p.package_id@);
    lemma_no_newlines_add(base, "/depiction/"@);
    lemma_no_newlines_add(base + "/depiction/"@, p.package_id@);
    lemma_decimal_wf(p.version_size as nat);
    let l1 = line("Package: "@, p.package_id@);
    let l2 = line("Version: "@, p.version@);
    let l3 = line("Section: "@, p.section@);
    let l4 = line("Maintainer: "@, p.developer_name@);
    let l5 = line("Depends: "@, p.depends@);
    let l6 = line("Architecture: "@, "iphoneos-arm"@);
    let l7 = line("Filename: "@, filename_value(base, p.name@, p.version@));
    let l8 = line("Size: "@, decimal(p.version_size as nat));
    let l9 = line("SHA256: "@, p.version_hash@);
    let l10 = line("Description: "@, p.short_description@);
    let l11 = line("Name: "@, p.name@);
    let l12 = line("Author: "@, p.developer_name@);
    let l13 = line("SileoDepiction: "@, sileo_depiction_value(base, p.package_id@));
    let l14 = line("Depiction: "@, depiction_value(base, p.package_id@));
    lemma_line_newlines("Package: "@, p.package_id@);
    lemma_line_newlines("Version: "@, p.version@);
    lemma_line_newlines("Section: "@, p.section@);
    lemma_line_newlines("Maintainer: "@, p.developer_name@);
    lemma_line_newlines("Depends: "@, p.depends@);
    lemma_line_newlines("Architecture: "@, "iphoneos-arm"@);
    lemma_line_newlines("Filename: "@, filename_value(base, p.name@, p.version@));
    lemma_line_newlines("Size: "@, decimal(p.version_size as nat));
    lemma_line_newlines("SHA256: "@, p.version_hash@);
    lemma_line_newlines("Description: "@, p.short_description@);
    lemma_line_newlines("Name: "@, p.name@);
    lemma_line_newlines("Author: "@, p.developer_name@);
    lemma_line_newlines("SileoDepiction: "@, sileo_depiction_value(base, p.package_id@));
    lemma_line_newlines("Depiction: "@, depiction_value(base, p.package_id@));
    lemma_count_char_add(l1, l2, '\n');
    lemma_count_char_add(l1 + l2, l3, '\n');
    lemma_count_char_add(l1 + l2 + l3, l4, '\n');
    lemma_count_char_add(l1 + l2 + l3 + l4, l5, '\n');
    lemma_count_char_add(l1 + l2 + l3 + l4 + l5, l6, '\n');
    lemma_count_char_add(l1 + l2 + l3 + l4 + l5 + l6, l7, '\n');
    lemma_count_char_add(l1 + l2 + l3 + l4 + l5 + l6 + l7, l8, '\n');
    lemma_count_char_add(l1 + l2 + l3 + l4 + l5 + l6 + l7 + l8, l9, '\n');
    lemma_count_char_add(l1 + l2 + l3 + l4 + l5 + l6 + l7 + l8 + l9, l10, '\n');
    lemma_count_char_add(l1 + l2 + l3 + l4 + l5 + l6 + l7 + l8 + l9 + l10, l11, '\n');
    lemma_count_char_add(l1 + l2 + l3 + l4 + l5 + l6 + l7 + l8 + l9 + l10 + l11, l12, '\n');
    lemma_count_char_add(l1 + l2 + l3 + l4 + l5 + l6 + l7 + l8 + l9 + l10 + l11 + l12, l13, '\n');
    lemma_count_char_add(
        l1 + l2 + l3 + l4 + l5 + l6 + l7 + l8 + l9 + l10 + l11 + l12 + l13,
        l14,
        '\n',
    );
    assert(count_char(package_head(p, base), '\n') == 14);
    if p.price > 0 {
        lemma_line_newlines("Tag: "@, "cydia::commercial"@);
        assert(count_char(tag_part(p), '\n') == 1);
    } else {
        assert(count_char(tag_part(p), '\n') == 0);
    }
    lemma_line_newlines("Icon: "@, p.icon@);
    assert(seq!['\n'].drop_last() =~= Seq::<char>::empty());
    assert(count_char(Seq::<char>::empty(), '\n') == 0);
    assert(count_char(seq!['\n'], '\n') == 1);
    lemma_count_char_add(line("Icon: "@, p.icon@), seq!['\n'], '\n');
    assert(count_char(block_end(p), '\n') == 2);
    lemma_count_char_add(package_head(p, base), tag_part(p), '\n');
    lemma_count_char_add(package_head(p, base) + tag_part(p), block_end(p), '\n');
}

/// Every stanza ends with the `Icon:` line's newline followed by exactly one
/// blank line; as long as the icon field stays on one line, no further blank
/// line precedes it, so adjacent stanzas never merge.
pub proof fn lemma_block_terminator(p: PackageInfo, base: Seq<char>)
    ensures
        package_block(p, base).len() >= 3,
        package_block(p, base)[package_block(p, base).len() - 1] == '\n',
        package_block(p, base)[package_block(p, base).len() - 2] == '\n',
        no_newlines(p.icon@) ==> package_block(p, base)[package_block(p, base).len() - 3] != '\n',
{
    reveal_strlit("Icon: ");
    let b = package_block(p, base);
    let e = block_end(p);
    let il = line("Icon: "@, p.icon@);
    assert(b[b.len() - 1] == e[e.len() - 1]);
    assert(b[b.len() - 2] == e[e.len() - 2]);
    assert(b[b.len() - 3] == e[e.len() - 3]);
    assert(e[e.len() - 2] == il[il.len() - 1]);
    if p.icon@.len() == 0 {
        assert(e[e.len() - 3] == "Icon: "@["Icon: "@.len() - 1]);
    } else {
        assert(e[e.len() - 3] == p.icon@[p.icon@.len() - 1]);
    }
}

} // verus!
