use vstd::prelude::*;

use pandoc_types::definition::{Inline, IterBlocks, IterInlines, Pandoc};

use crate::errors::FilterError;

verus! {

#[verifier::external_type_specification]
#[verifier::external_body]
pub struct ExPandoc(Pandoc);

#[verifier::external_type_specification]
#[verifier::external_body]
pub struct ExJsonError(serde_json::Error);

/// The URL of every image inline in the tree, in document order: one entry
/// per image node found by walking the top-level blocks and, within each
/// block, its immediately contained inlines.
pub uninterp spec fn doc_image_urls(d: Pandoc) -> Seq<Seq<char>>;

/// Everything in the tree other than the image URLs: the document with every
/// image URL blanked out, abstracted as a value — the non-image content, not
/// its exact wire bytes. Two trees whose non-URL content is
/// indistinguishable on the wire share it.
pub uninterp spec fn doc_shape(d: Pandoc) -> Seq<char>;

/// Whether the bytes are a well-formed document tree in the JSON wire
/// format: valid JSON of the supported schema version that deserializes into
/// a tree. Parsing is deterministic, so this is a function of the bytes.
pub uninterp spec fn pandoc_parses(bytes: Seq<u8>) -> bool;

/// The image URLs of the tree that the bytes parse into — a function of the
/// bytes, meaningful where `pandoc_parses` holds.
pub uninterp spec fn parsed_image_urls(bytes: Seq<u8>) -> Seq<Seq<char>>;

/// The non-URL content of the tree that the bytes parse into — a function of
/// the bytes, meaningful where `pandoc_parses` holds.
pub uninterp spec fn parsed_shape(bytes: Seq<u8>) -> Seq<char>;

/// Whether the tree serializes back to the wire format. Whether
/// serialization succeeds depends on the tree value alone (it is expected
/// never to fail for a tree that was parsed).
pub uninterp spec fn doc_serializes(d: Pandoc) -> bool;

/// Relies on serde_json::from_slice and pandoc_types' Deserialize for Pandoc:
/// parses the JSON wire format into a document tree, rejecting malformed
/// input and trees of another schema version. It succeeds exactly on the
/// bytes that parse, and the tree it returns is the one those bytes encode:
/// its image URLs and its remaining content are those of the bytes.
#[verifier::external_body]
fn parse_pandoc(bytes: &Vec<u8>) -> (r: Result<Pandoc, serde_json::Error>)
    ensures
        r is Ok <==> pandoc_parses(bytes@),
        (r matches Ok(d) ==> doc_image_urls(d) == parsed_image_urls(bytes@) && doc_shape(d)
            == parsed_shape(bytes@)),
{
    serde_json::from_slice(bytes.as_slice())
}

/// Relies on serde_json::to_vec and pandoc_types' Serialize for Pandoc: it
/// succeeds exactly on the serializable trees, and emitted bytes that parse
/// encode exactly this tree — the same image URLs, the same remaining
/// content. (The parse guard scopes the claim: serde_json can emit bytes
/// that do not re-parse for a tree holding a non-finite column width or one
/// nested past the parser's recursion limit; no tree this library builds is
/// such a tree, since its documents only ever come from parsing.)
#[verifier::external_body]
fn serialize_pandoc(d: &Pandoc) -> (r: Result<Vec<u8>, serde_json::Error>)
    ensures
        r is Ok <==> doc_serializes(*d),
        (r matches Ok(v) ==> (pandoc_parses(v@) ==> parsed_image_urls(v@) == doc_image_urls(*d)
            && parsed_shape(v@) == doc_shape(*d))),
{
    serde_json::to_vec(d)
}

/// Relies on serde_json::Error's Display impl for a diagnostic message.
#[verifier::external_body]
fn json_error_message(e: &serde_json::Error) -> (r: String) {
    e.to_string()
}

/// Relies on pandoc_types' IterBlocks and IterInlines impls: walks the
/// top-level blocks and each block's immediate inlines in document order and
/// clones the target URL of every image inline.
#[verifier::external_body]
fn read_image_urls(d: &Pandoc) -> (v: Vec<String>)
    ensures
        v@.len() == doc_image_urls(*d).len(),
        forall|i: int| 0 <= i < v@.len() ==> v@[i]@ == doc_image_urls(*d)[i],
{
    d.iter_blocks()
        .flat_map(|b| b.iter_inlines())
        .filter_map(|inline| match inline {
            Inline::Image(_, _, target) => Some(target.url.clone()),
            _ => None,
        })
        .collect()
}

/// Relies on pandoc_types' IterBlocks and IterInlines impls: the same walk,
/// rewriting each image inline's target URL to the matching element of
/// `urls` and touching nothing else in the tree.
#[verifier::external_body]
fn write_image_urls(d: &mut Pandoc, urls: &Vec<String>)
    requires
        urls@.len() == doc_image_urls(*old(d)).len(),
    ensures
        doc_image_urls(*final(d)).len() == urls@.len(),
        forall|i: int| 0 <= i < urls@.len() ==> doc_image_urls(*final(d))[i] == urls@[i]@,
        doc_shape(*final(d)) == doc_shape(*old(d)),
{
    let mut it = urls.iter();
    for block in d.iter_blocks_mut() {
        for inline in block.iter_inlines_mut() {
            if let Inline::Image(_, _, target) = inline {
                if let Some(url) = it.next() {
                    target.url = url.clone();
                }
            }
        }
    }
}

/// One image reference of a document: the position of its node among the
/// document's images, and its target URL. It is an index-based handle:
/// distinct handles address distinct nodes, so each can be rewritten
/// independently of the others.
pub struct Image {
    index: usize,
    url: String,
}

impl Image {
    pub closed spec fn idx(&self) -> int {
        self.index as int
    }

    pub closed spec fn url_view(&self) -> Seq<char> {
        self.url@
    }

    pub fn new(index: usize, url: String) -> (r: Self)
        ensures
            r.idx() == index as int,
            r.url_view() == url@,
    {
        Image { index, url }
    }

    pub fn index(&self) -> (r: usize)
        ensures
            r as int == self.idx(),
    {
        self.index
    }

    /// Read-only access to the image's current URL.
    pub fn image_url_read_only(&self) -> (r: &String)
        ensures
            r@ == self.url_view(),
    {
        &self.url
    }

    /// Replace the image's URL, keeping the handle on the same node.
    pub fn set_image_url(&mut self, url: String)
        ensures
            final(self).idx() == old(self).idx(),
            final(self).url_view() == url@,
    {
        self.url = url;
    }
}

/// The document tree, deserialized from the JSON wire format. The tree
/// itself is opaque; what the filter reads and writes — the image URLs — is
/// exposed through `Image` handles and written back in one step.
pub struct PandocDocument {
    tree: Pandoc,
}

impl PandocDocument {
    /// The URLs of the document's images, in document order.
    pub closed spec fn image_urls(&self) -> Seq<Seq<char>> {
        doc_image_urls(self.tree)
    }

    /// Everything in the document other than the image URLs.
    pub closed spec fn shape(&self) -> Seq<char> {
        doc_shape(self.tree)
    }

    /// Whether the document serializes back to the wire format.
    pub closed spec fn serializes(&self) -> bool {
        doc_serializes(self.tree)
    }

    /// Deserialize a document from wire-format bytes: succeeds exactly on
    /// bytes that parse as a document tree, and the document it holds is the
    /// one the bytes encode; everything else is rejected as malformed, with
    /// the parser's diagnostic attached.
    pub fn new(bytes: &Vec<u8>) -> (r: Result<Self, FilterError>)
        ensures
            r is Ok <==> pandoc_parses(bytes@),
            (r matches Ok(doc) ==> doc.image_urls() == parsed_image_urls(bytes@) && doc.shape()
                == parsed_shape(bytes@)),
            (r matches Err(e) ==> e is MalformedDocument),
    {
        match parse_pandoc(bytes) {
            Ok(tree) => Ok(PandocDocument { tree }),
            Err(e) => Err(FilterError::MalformedDocument(json_error_message(&e))),
        }
    }

    /// One handle per image node, in document order. The list is materialized
    /// eagerly so the handles stay valid while URLs are being converted.
    pub fn get_all_images(&self) -> (imgs: Vec<Image>)
        ensures
            imgs@.len() == self.image_urls().len(),
            forall|i: int|
                0 <= i < imgs@.len() ==> (#[trigger] imgs@[i]).idx() == i && imgs@[i].url_view()
                    == self.image_urls()[i],
    {
        let urls = read_image_urls(&self.tree);
        let mut imgs: Vec<Image> = Vec::new();
        let mut k: usize = 0;
        while k < urls.len()
            invariant
                k <= urls.len(),
                urls@.len() == self.image_urls().len(),
                forall|i: int| 0 <= i < urls@.len() ==> (#[trigger] urls@[i])@ == self.image_urls()[i],
                imgs@.len() == k as int,
                forall|i: int|
                    0 <= i < k as int ==> (#[trigger] imgs@[i]).idx() == i && imgs@[i].url_view()
                        == self.image_urls()[i],
            decreases urls.len() - k,
        {
            let img = Image::new(k, urls[k].clone());
            let ghost prev = imgs@;
            imgs.push(img);
            proof {
                assert forall|i: int|
                    0 <= i < k as int + 1 implies (#[trigger] imgs@[i]).idx() == i
                    && imgs@[i].url_view() == self.image_urls()[i] by {
                    if i < k as int {
                        assert(imgs@[i] == prev[i]);
                        assert(prev[i].idx() == i && prev[i].url_view() == self.image_urls()[i]);
                    } else {
                        assert(imgs@[i] == img);
                        assert((urls@[i])@ == self.image_urls()[i]);
                    }
                }
            }
            k = k + 1;
        }
        imgs
    }

    /// Overwrite the URL of every image node, in document order; the rest of
    /// the document is untouched.
    pub fn set_image_urls(&mut self, urls: &Vec<String>)
        requires
            urls@.len() == old(self).image_urls().len(),
        ensures
            final(self).image_urls().len() == urls@.len(),
            forall|i: int| 0 <= i < urls@.len() ==> final(self).image_urls()[i] == urls@[i]@,
            final(self).shape() == old(self).shape(),
    {
        write_image_urls(&mut self.tree, urls);
    }

    /// Serialize the document back to wire-format bytes: succeeds exactly on
    /// serializable documents, and emitted bytes that parse encode exactly
    /// this document — its current image URLs, every mutation included, and
    /// its unchanged remaining content survive the round trip.
    pub fn to_json(&self) -> (r: Result<Vec<u8>, FilterError>)
        ensures
            r is Ok <==> self.serializes(),
            (r matches Ok(v) ==> (pandoc_parses(v@) ==> parsed_image_urls(v@) == self.image_urls()
                && parsed_shape(v@) == self.shape())),
            (r matches Err(e) ==> e is SerializationFailed),
    {
        match serialize_pandoc(&self.tree) {
            Ok(v) => Ok(v),
            Err(e) => Err(FilterError::SerializationFailed(json_error_message(&e))),
        }
    }
}

} // verus!
