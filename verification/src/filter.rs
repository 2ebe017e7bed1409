use vstd::prelude::*;

use rayon::iter::{IntoParallelRefIterator, ParallelIterator};

use crate::cache::{error_names_conversion, output_format_of, spec_format_ext,
    spec_output_format, ConverterCache, OutputFormat};
use crate::errors::{is_conversion_error, FilterError};
use crate::pandoc::{Image, PandocDocument};
use crate::paths::{spec_extension, spec_with_extension, url_extension_is};

verus! {

/// Whether a URL points at a diagram file: its extension is exactly the
/// diagram extension, case-sensitively. This filter is the sole gate.
pub open spec fn is_diagram_url(u: Seq<char>) -> bool {
    spec_extension(u) == Some("drawio"@)
}

/// The URL a conversion rewrites `u` to: the extension replaced by the
/// output format's canonical one.
pub open spec fn spec_converted_url(u: Seq<char>, f: OutputFormat) -> Seq<char> {
    spec_with_extension(u, spec_format_ext(f))
}

/// What one run does to one image URL: diagram URLs are converted, every
/// other URL is left untouched.
pub open spec fn spec_rewrite_url(u: Seq<char>, f: OutputFormat) -> Seq<char> {
    if is_diagram_url(u) {
        spec_converted_url(u, f)
    } else {
        u
    }
}

/// What one run does to a document's image URLs, pointwise and in order.
pub open spec fn spec_rewrite(urls: Seq<Seq<char>>, f: OutputFormat) -> Seq<Seq<char>> {
    Seq::new(urls.len(), |i: int| spec_rewrite_url(urls[i], f))
}

pub fn url_is_diagram(url: &String) -> (r: bool)
    ensures
        r == is_diagram_url(url@),
{
    url_extension_is(url, "drawio")
}

/// Convert one image: resolve the requested document format to an output
/// format — an unknown format fails the conversion — and hand the URL to the
/// conversion policy; the new URL is the converted path.
pub fn convert_image<C: ConverterCache>(cache: &C, url: &String, format: &String) -> (r: Result<
    String,
    FilterError,
>)
    ensures
        (spec_output_format(format@) is None ==> (r matches Err(FilterError::UnsupportedFormat(s))
            && s@ == format@)),
        (r matches Ok(u) ==> spec_output_format(format@) is Some && u@ == spec_converted_url(
            url@,
            spec_output_format(format@)->Some_0,
        )),
        (r matches Err(e) ==> ((e matches FilterError::UnsupportedFormat(s) && spec_output_format(
            format@,
        ) is None && s@ == format@) || is_conversion_error(e))),
        (spec_output_format(format@) matches Some(f) ==> (r matches Err(e)
            ==> error_names_conversion(e, url@, f))),
{
    match output_format_of(format) {
        None => Err(FilterError::UnsupportedFormat(format.clone())),
        Some(f) => cache.convert(url, f),
    }
}

/// Convert the image behind one handle, yielding a handle on the same node
/// that carries the converted URL.
pub fn convert_image_handle<C: ConverterCache>(cache: &C, img: &Image, format: &String) -> (r:
    Result<Image, FilterError>)
    ensures
        (r matches Ok(h) ==> spec_output_format(format@) is Some && h.idx() == img.idx()
            && h.url_view() == spec_converted_url(
            img.url_view(),
            spec_output_format(format@)->Some_0,
        )),
        (r matches Err(e) ==> ((e matches FilterError::UnsupportedFormat(s) && spec_output_format(
            format@,
        ) is None && s@ == format@) || is_conversion_error(e))),
        (spec_output_format(format@) matches Some(f) ==> (r matches Err(e)
            ==> error_names_conversion(e, img.url_view(), f))),
{
    match convert_image(cache, img.image_url_read_only(), format) {
        Ok(u) => Ok(Image::new(img.index(), u)),
        Err(e) => Err(e),
    }
}

/// Relies on rayon's `par_iter().map(..).collect::<Result<Vec<_>, _>>()`: it
/// runs the verified `convert_image_handle` once per handle, possibly
/// concurrently; an `Ok` collection holds every call's result in input
/// order, and any failed call aborts the whole collection with its error —
/// so an `Err` is the error of one of the calls, bounded by
/// `convert_image_handle`'s own failure clause.
#[verifier::external_body]
fn par_convert_images<C: ConverterCache + Sync>(
    cache: &C,
    items: &Vec<Image>,
    format: &String,
) -> (r: Result<Vec<Image>, FilterError>)
    ensures
        (r matches Ok(out) ==> out@.len() == items@.len() && (items@.len() > 0
            ==> spec_output_format(format@) is Some) && forall|i: int|
            0 <= i < items@.len() ==> (#[trigger] out@[i]).idx() == items@[i].idx()
                && out@[i].url_view() == spec_converted_url(
                items@[i].url_view(),
                spec_output_format(format@)->Some_0,
            )),
        (r matches Err(e) ==> ((e matches FilterError::UnsupportedFormat(s) && spec_output_format(
            format@,
        ) is None && s@ == format@) || is_conversion_error(e))),
        (spec_output_format(format@) matches Some(f) ==> (r matches Err(e) ==> exists|i: int|
            0 <= i < items@.len() && error_names_conversion(
                e,
                (#[trigger] items@[i]).url_view(),
                f,
            ))),
{
    items.par_iter().map(|img| convert_image_handle(cache, img, format)).collect()
}

/// The whole filter on one document: find the diagram images, convert each —
/// independent images possibly in parallel — and rewrite their URLs, leaving
/// every other image and the rest of the tree untouched. The run is
/// all-or-nothing: on any error the document is left exactly as it was.
pub fn process_document<C: ConverterCache + Sync>(
    cache: &C,
    doc: &mut PandocDocument,
    format: &String,
) -> (r: Result<(), FilterError>)
    ensures
        (r is Err ==> *final(doc) == *old(doc)),
        ((forall|i: int|
            0 <= i < old(doc).image_urls().len() ==> !is_diagram_url(
                #[trigger] old(doc).image_urls()[i],
            )) ==> r is Ok && *final(doc) == *old(doc)),
        ((exists|i: int|
            0 <= i < old(doc).image_urls().len() && is_diagram_url(
                #[trigger] old(doc).image_urls()[i],
            )) && spec_output_format(format@) is None ==> (r matches Err(
            FilterError::UnsupportedFormat(s),
        ) && s@ == format@)),
        ((r is Ok && spec_output_format(format@) is Some) ==> final(doc).image_urls()
            == spec_rewrite(old(doc).image_urls(), spec_output_format(format@)->Some_0)
            && final(doc).shape() == old(doc).shape()),
        (r matches Err(e) ==> ((e matches FilterError::UnsupportedFormat(s2) && spec_output_format(
            format@,
        ) is None && s2@ == format@) || is_conversion_error(e))),
        (r matches Err(e) ==> (is_conversion_error(e) ==> spec_output_format(format@) is Some
            && exists|i: int|
            0 <= i < old(doc).image_urls().len() && is_diagram_url(
                #[trigger] old(doc).image_urls()[i],
            ) && error_names_conversion(e, old(doc).image_urls()[i], spec_output_format(format@)->Some_0))),
{
    let ghost urls0: Seq<Seq<char>> = doc.image_urls();
    let images: Vec<Image> = doc.get_all_images();
    let mut plan: Vec<Image> = Vec::new();
    let mut k: usize = 0;
    while k < images.len()
        invariant
            k <= images.len(),
            images@.len() == urls0.len(),
            forall|i: int|
                0 <= i < images@.len() ==> (#[trigger] images@[i]).idx() == i
                    && images@[i].url_view() == urls0[i],
            forall|p: int|
                0 <= p < plan@.len() ==> 0 <= (#[trigger] plan@[p]).idx() < k as int
                    && plan@[p].url_view() == urls0[plan@[p].idx()] && is_diagram_url(
                    urls0[plan@[p].idx()],
                ),
            forall|p1: int, p2: int|
                0 <= p1 < p2 < plan@.len() ==> (#[trigger] plan@[p1]).idx() < (#[trigger] plan@[p2]).idx(),
            forall|i: int|
                0 <= i < k as int && is_diagram_url(#[trigger] urls0[i]) ==> exists|p: int|
                    0 <= p < plan@.len() && (#[trigger] plan@[p]).idx() == i,
        decreases images.len() - k,
    {
        let is_d = url_is_diagram(images[k].image_url_read_only());
        if is_d {
            let entry = Image::new(images[k].index(), images[k].image_url_read_only().clone());
            let ghost prevplan = plan@;
            plan.push(entry);
            proof {
                assert forall|i: int|
                    0 <= i < k as int + 1 && is_diagram_url(#[trigger] urls0[i]) implies exists|p: int|
                    0 <= p < plan@.len() && (#[trigger] plan@[p]).idx() == i by {
                    if i < k as int {
                        let p0 = choose|p: int|
                            0 <= p < prevplan.len() && (#[trigger] prevplan[p]).idx() == i;
                        assert(plan@[p0] == prevplan[p0]);
                        assert(plan@[p0].idx() == i);
                    } else {
                        assert(plan@[plan@.len() - 1] == entry);
                        assert(plan@[plan@.len() - 1].idx() == i);
                    }
                }
            }
        }
        k = k + 1;
    }
    if plan.len() == 0 {
        proof {
            assert forall|i: int|
                0 <= i < urls0.len() implies !is_diagram_url(#[trigger] urls0[i]) by {
                if is_diagram_url(urls0[i]) {
                    let p0 = choose|p: int| 0 <= p < plan@.len() && (#[trigger] plan@[p]).idx() == i;
                }
            }
            if spec_output_format(format@) is Some {
                crate::laws::lemma_rewrite_identity(urls0, spec_output_format(format@)->Some_0);
            }
        }
        return Ok(());
    }
    assert(is_diagram_url(urls0[plan@[0].idx()]));
    let fmt_resolved = output_format_of(format);
    if fmt_resolved.is_none() {
        return Err(FilterError::UnsupportedFormat(format.clone()));
    }
    let ghost f: OutputFormat = spec_output_format(format@)->Some_0;
    let converted: Vec<Image> = match par_convert_images(cache, &plan, format) {
        Ok(v) => v,
        Err(e) => {
            proof {
                if is_conversion_error(e) {
                    let f2 = spec_output_format(format@)->Some_0;
                    let p = choose|p: int|
                        0 <= p < plan@.len() && error_names_conversion(
                            e,
                            (#[trigger] plan@[p]).url_view(),
                            f2,
                        );
                    let witness = plan@[p].idx();
                    assert(0 <= witness < urls0.len() && is_diagram_url(urls0[witness])
                        && error_names_conversion(e, urls0[witness], f2));
                }
            }
            return Err(e);
        },
    };
    let mut new_urls: Vec<String> = Vec::new();
    let mut k2: usize = 0;
    while k2 < images.len()
        invariant
            k2 <= images.len(),
            images@.len() == urls0.len(),
            forall|i: int|
                0 <= i < images@.len() ==> (#[trigger] images@[i]).idx() == i
                    && images@[i].url_view() == urls0[i],
            new_urls@.len() == k2 as int,
            forall|i: int| 0 <= i < k2 as int ==> (#[trigger] new_urls@[i])@ == urls0[i],
        decreases images.len() - k2,
    {
        new_urls.push(images[k2].image_url_read_only().clone());
        k2 = k2 + 1;
    }
    let mut j: usize = 0;
    while j < converted.len()
        invariant
            j <= converted.len(),
            converted@.len() == plan@.len(),
            plan@.len() >= 1,
            forall|i: int|
                0 <= i < converted@.len() ==> (#[trigger] converted@[i]).idx() == plan@[i].idx()
                    && converted@[i].url_view() == spec_converted_url(plan@[i].url_view(), f),
            forall|p: int|
                0 <= p < plan@.len() ==> 0 <= (#[trigger] plan@[p]).idx() < urls0.len()
                    && plan@[p].url_view() == urls0[plan@[p].idx()] && is_diagram_url(
                    urls0[plan@[p].idx()],
                ),
            forall|p1: int, p2: int|
                0 <= p1 < p2 < plan@.len() ==> (#[trigger] plan@[p1]).idx() < (#[trigger] plan@[p2]).idx(),
            new_urls@.len() == urls0.len(),
            forall|jj: int|
                0 <= jj < j as int ==> (#[trigger] new_urls@[converted@[jj].idx()])@
                    == converted@[jj].url_view(),
            forall|i: int|
                0 <= i < urls0.len() && !touched(converted@, j as int, i) ==> (
                #[trigger] new_urls@[i])@ == urls0[i],
        decreases converted.len() - j,
    {
        let idx = converted[j].index();
        assert(idx as int == plan@[j as int].idx());
        let ghost prev_urls = new_urls@;
        new_urls[idx] = converted[j].image_url_read_only().clone();
        proof {
            assert forall|jj: int|
                0 <= jj < j as int + 1 implies (#[trigger] new_urls@[converted@[jj].idx()])@
                == converted@[jj].url_view() by {
                if jj < j as int {
                    assert(converted@[jj].idx() != idx as int);
                    assert(new_urls@[converted@[jj].idx()] == prev_urls[converted@[jj].idx()]);
                }
            }
            assert forall|i: int|
                0 <= i < urls0.len() && !touched(converted@, j as int + 1, i) implies (
            #[trigger] new_urls@[i])@ == urls0[i] by {
                assert(!touched(converted@, j as int, i));
                assert(i != idx as int);
                assert(new_urls@[i] == prev_urls[i]);
            }
        }
        j = j + 1;
    }
    proof {
        assert forall|i: int|
            0 <= i < urls0.len() implies (#[trigger] new_urls@[i])@ == spec_rewrite(urls0, f)[i] by {
            if is_diagram_url(urls0[i]) {
                let p0 = choose|p: int| 0 <= p < plan@.len() && (#[trigger] plan@[p]).idx() == i;
                assert(converted@[p0].idx() == i);
                assert(touched(converted@, converted@.len() as int, i));
                assert(new_urls@[converted@[p0].idx()]@ == converted@[p0].url_view());
                assert(new_urls@[i]@ == spec_converted_url(urls0[i], f));
            } else {
                assert forall|jj: int|
                    0 <= jj < converted@.len() implies (#[trigger] converted@[jj]).idx() != i by {
                    assert(is_diagram_url(urls0[plan@[jj].idx()]));
                }
                assert(!touched(converted@, converted@.len() as int, i));
            }
        }
    }
    doc.set_image_urls(&new_urls);
    proof {
        assert(doc.image_urls() =~= spec_rewrite(urls0, f));
    }
    Ok(())
}

/// Whether one of the first `j` conversion results addresses image `i`.
pub open spec fn touched(converted: Seq<Image>, j: int, i: int) -> bool {
    exists|jj: int| 0 <= jj < j && (#[trigger] converted[jj]).idx() == i
}

} // verus!
