use vstd::prelude::*;

use crate::cache::{spec_format_ext, OutputFormat};
use crate::filter::{is_diagram_url, spec_converted_url, spec_rewrite, spec_rewrite_url};
use crate::paths::{has_extension, lemma_extension_of_with_extension, lemma_with_extension_changes,
    spec_extension, spec_with_extension};

verus! {

/// The canonical extension of an output format is short, holds neither dot
/// nor slash, and is not the diagram extension.
proof fn lemma_format_ext_wf(f: OutputFormat)
    ensures
        spec_format_ext(f).len() == 3,
        forall|j: int|
            0 <= j < spec_format_ext(f).len() ==> #[trigger] spec_format_ext(f)[j] != '.'
                && spec_format_ext(f)[j] != '/',
        spec_format_ext(f) != "drawio"@,
{
    reveal_strlit("pdf");
    reveal_strlit("svg");
    reveal_strlit("drawio");
}

/// Law: a document whose image URLs hold no diagram URL is rewritten to
/// itself — the filter is the identity on such documents.
pub proof fn lemma_rewrite_identity(urls: Seq<Seq<char>>, f: OutputFormat)
    requires
        forall|i: int| 0 <= i < urls.len() ==> !is_diagram_url(#[trigger] urls[i]),
    ensures
        spec_rewrite(urls, f) == urls,
{
    assert(spec_rewrite(urls, f) =~= urls);
}

/// Law: the rewrite keeps the number and order of the image URLs, and
/// changes exactly the diagram URLs — every other URL comes out identical.
pub proof fn lemma_rewrite_changes_exactly_diagrams(urls: Seq<Seq<char>>, f: OutputFormat)
    ensures
        spec_rewrite(urls, f).len() == urls.len(),
        forall|i: int|
            0 <= i < urls.len() ==> (spec_rewrite(urls, f)[i] != #[trigger] urls[i]
                <==> is_diagram_url(urls[i])),
{
    assert forall|i: int|
        0 <= i < urls.len() implies (spec_rewrite(urls, f)[i] != #[trigger] urls[i]
        <==> is_diagram_url(urls[i])) by {
        if is_diagram_url(urls[i]) {
            lemma_format_ext_wf(f);
            lemma_with_extension_changes(urls[i], spec_format_ext(f));
        }
    }
}

/// Law: rewriting an already-rewritten document changes nothing — a
/// converted URL no longer has the diagram extension, and the extension is
/// the sole gate.
pub proof fn lemma_rewrite_idempotent(urls: Seq<Seq<char>>, f: OutputFormat)
    ensures
        spec_rewrite(spec_rewrite(urls, f), f) == spec_rewrite(urls, f),
{
    let r1 = spec_rewrite(urls, f);
    assert forall|i: int| 0 <= i < r1.len() implies spec_rewrite_url(#[trigger] r1[i], f)
        == r1[i] by {
        if is_diagram_url(urls[i]) {
            lemma_format_ext_wf(f);
            lemma_extension_of_with_extension(urls[i], spec_format_ext(f));
            assert(spec_extension(r1[i]) == Some(spec_format_ext(f)));
            assert(!is_diagram_url(r1[i]));
        }
    }
    assert(spec_rewrite(r1, f) =~= r1);
}

/// `s` ends with `suffix`.
pub open spec fn ends_with(s: Seq<char>, suffix: Seq<char>) -> bool {
    s.len() >= suffix.len() && s.subrange(s.len() - suffix.len(), s.len() as int) == suffix
}

/// Law: every converted URL ends in a dot followed by the output format's
/// canonical extension — `.pdf` for the paged formats, `.svg` for the
/// browser formats.
pub proof fn lemma_converted_urls_end_in_extension(urls: Seq<Seq<char>>, f: OutputFormat)
    ensures
        forall|i: int|
            0 <= i < urls.len() && is_diagram_url(#[trigger] urls[i]) ==> ends_with(
                spec_rewrite(urls, f)[i],
                seq!['.'] + spec_format_ext(f),
            ),
{
    assert forall|i: int|
        0 <= i < urls.len() && is_diagram_url(#[trigger] urls[i]) implies ends_with(
        spec_rewrite(urls, f)[i],
        seq!['.'] + spec_format_ext(f),
    ) by {
        let u = urls[i];
        let r = spec_rewrite(urls, f)[i];
        assert(has_extension(u));
        assert(r == spec_with_extension(u, spec_format_ext(f)));
        assert(r.subrange(r.len() - (1 + spec_format_ext(f).len()), r.len() as int) =~= seq!['.']
            + spec_format_ext(f));
    }
}

/// One sequence of per-image URL updates, applied in order: each update puts
/// its URL at its image index.
pub open spec fn apply_updates(urls: Seq<Seq<char>>, ups: Seq<(int, Seq<char>)>) -> Seq<Seq<char>>
    decreases ups.len(),
{
    if ups.len() == 0 {
        urls
    } else {
        apply_updates(urls.update(ups[0].0, ups[0].1), ups.drop_first())
    }
}

/// No two updates address the same image.
pub open spec fn distinct_indices(ups: Seq<(int, Seq<char>)>) -> bool {
    forall|a: int, b: int|
        0 <= a < b < ups.len() ==> (#[trigger] ups[a]).0 != (#[trigger] ups[b]).0
}

/// Every update addresses one of the `n` images.
pub open spec fn indices_within(ups: Seq<(int, Seq<char>)>, n: int) -> bool {
    forall|a: int| 0 <= a < ups.len() ==> 0 <= (#[trigger] ups[a]).0 < n
}

/// Applying disjoint updates is pointwise: each addressed image ends up with
/// its update's URL, every other image keeps its URL — whatever the order
/// the updates are applied in.
pub proof fn lemma_apply_updates_pointwise(urls: Seq<Seq<char>>, ups: Seq<(int, Seq<char>)>)
    requires
        distinct_indices(ups),
        indices_within(ups, urls.len() as int),
    ensures
        apply_updates(urls, ups).len() == urls.len(),
        forall|a: int|
            0 <= a < ups.len() ==> apply_updates(urls, ups)[(#[trigger] ups[a]).0] == ups[a].1,
        forall|i: int|
            0 <= i < urls.len() && (forall|a: int| 0 <= a < ups.len() ==> (#[trigger] ups[a]).0
                != i) ==> apply_updates(urls, ups)[i] == urls[i],
    decreases ups.len(),
{
    if ups.len() == 0 {
    } else {
        let urls1 = urls.update(ups[0].0, ups[0].1);
        let rest = ups.drop_first();
        assert forall|a: int, b: int|
            0 <= a < b < rest.len() implies (#[trigger] rest[a]).0 != (#[trigger] rest[b]).0 by {
            assert(rest[a] == ups[a + 1]);
            assert(rest[b] == ups[b + 1]);
        }
        assert forall|a: int| 0 <= a < rest.len() implies 0 <= (#[trigger] rest[a]).0
            < urls1.len() by {
            assert(rest[a] == ups[a + 1]);
        }
        lemma_apply_updates_pointwise(urls1, rest);
        assert(apply_updates(urls, ups) == apply_updates(urls1, rest));
        assert forall|a: int|
            0 <= a < ups.len() implies apply_updates(urls, ups)[(#[trigger] ups[a]).0]
            == ups[a].1 by {
            if a == 0 {
                assert forall|c: int| 0 <= c < rest.len() implies (#[trigger] rest[c]).0
                    != ups[0].0 by {
                    assert(rest[c] == ups[c + 1]);
                }
                assert(apply_updates(urls1, rest)[ups[0].0] == urls1[ups[0].0]);
            } else {
                assert(rest[a - 1] == ups[a]);
                assert(apply_updates(urls1, rest)[rest[a - 1].0] == rest[a - 1].1);
            }
        }
        assert forall|i: int|
            0 <= i < urls.len() && (forall|a: int| 0 <= a < ups.len() ==> (#[trigger] ups[a]).0
                != i) implies apply_updates(urls, ups)[i] == urls[i] by {
            assert(ups[0].0 != i);
            assert forall|c: int| 0 <= c < rest.len() implies (#[trigger] rest[c]).0 != i by {
                assert(rest[c] == ups[c + 1]);
            }
            assert(apply_updates(urls1, rest)[i] == urls1[i]);
        }
    }
}

/// The updates are one conversion per diagram URL of `urls` for format `f`:
/// disjoint, one per diagram image (every diagram covered, nothing else
/// touched), each writing that image's converted URL.
pub open spec fn is_conversion_plan(
    ups: Seq<(int, Seq<char>)>,
    urls: Seq<Seq<char>>,
    f: OutputFormat,
) -> bool {
    &&& distinct_indices(ups)
    &&& indices_within(ups, urls.len() as int)
    &&& forall|a: int|
        0 <= a < ups.len() ==> is_diagram_url(urls[(#[trigger] ups[a]).0]) && ups[a].1
            == spec_converted_url(urls[ups[a].0], f)
    &&& forall|i: int|
        0 <= i < urls.len() && is_diagram_url(#[trigger] urls[i]) ==> exists|a: int|
            0 <= a < ups.len() && (#[trigger] ups[a]).0 == i
}

/// Law: one conversion per diagram image, applied in whatever order the
/// workers finish, ends at exactly the filter's declared result — the same
/// final URL sequence a sequential run produces.
pub proof fn lemma_conversion_plan_reaches_rewrite(
    urls: Seq<Seq<char>>,
    ups: Seq<(int, Seq<char>)>,
    f: OutputFormat,
)
    requires
        is_conversion_plan(ups, urls, f),
    ensures
        apply_updates(urls, ups) == spec_rewrite(urls, f),
{
    lemma_apply_updates_pointwise(urls, ups);
    assert forall|i: int|
        0 <= i < urls.len() implies apply_updates(urls, ups)[i] == spec_rewrite(urls, f)[i] by {
        if is_diagram_url(urls[i]) {
            let a = choose|a: int| 0 <= a < ups.len() && (#[trigger] ups[a]).0 == i;
            assert(apply_updates(urls, ups)[ups[a].0] == ups[a].1);
        } else {
            assert forall|a: int| 0 <= a < ups.len() implies (#[trigger] ups[a]).0 != i by {
                assert(is_diagram_url(urls[ups[a].0]));
            }
            assert(apply_updates(urls, ups)[i] == urls[i]);
        }
    }
    assert(apply_updates(urls, ups) =~= spec_rewrite(urls, f));
}

/// Law: converting independent diagram images is order-independent — two
/// runs that perform the same set of disjoint URL updates, in whatever
/// interleaving, produce the same final URL sequence, so a concurrent run
/// ends at exactly the sequential result.
pub proof fn lemma_apply_updates_order_independent(
    urls: Seq<Seq<char>>,
    ups1: Seq<(int, Seq<char>)>,
    ups2: Seq<(int, Seq<char>)>,
)
    requires
        distinct_indices(ups1),
        distinct_indices(ups2),
        indices_within(ups1, urls.len() as int),
        indices_within(ups2, urls.len() as int),
        ups1.to_multiset() == ups2.to_multiset(),
    ensures
        apply_updates(urls, ups1) == apply_updates(urls, ups2),
{
    broadcast use vstd::seq_lib::group_to_multiset_ensures;

    lemma_apply_updates_pointwise(urls, ups1);
    lemma_apply_updates_pointwise(urls, ups2);
    assert forall|i: int|
        0 <= i < urls.len() implies apply_updates(urls, ups1)[i] == apply_updates(urls, ups2)[i] by {
        if exists|a: int| 0 <= a < ups1.len() && (#[trigger] ups1[a]).0 == i {
            let a = choose|a: int| 0 <= a < ups1.len() && (#[trigger] ups1[a]).0 == i;
            let x = ups1[a];
            assert(ups1.contains(x));
            assert(ups1.to_multiset().count(x) > 0);
            assert(ups2.to_multiset().count(x) > 0);
            assert(ups2.contains(x));
            let b = choose|b: int| 0 <= b < ups2.len() && ups2[b] == x;
            assert((#[trigger] ups2[b]).0 == i);
            assert(apply_updates(urls, ups1)[i] == x.1);
            assert(apply_updates(urls, ups2)[i] == x.1);
        } else {
            assert forall|b: int| 0 <= b < ups2.len() implies (#[trigger] ups2[b]).0 != i by {
                if ups2[b].0 == i {
                    let y = ups2[b];
                    assert(ups2.contains(y));
                    assert(ups2.to_multiset().count(y) > 0);
                    assert(ups1.to_multiset().count(y) > 0);
                    assert(ups1.contains(y));
                    let a2 = choose|a: int| 0 <= a < ups1.len() && ups1[a] == y;
                    assert((ups1[a2]).0 == i);
                }
            }
            assert(apply_updates(urls, ups1)[i] == urls[i]);
            assert(apply_updates(urls, ups2)[i] == urls[i]);
        }
    }
    assert(apply_updates(urls, ups1) =~= apply_updates(urls, ups2));
}

} // verus!
