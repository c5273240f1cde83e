//! Sources, resolved content, and the decoding of bytes into source text.

use crate::error::{FileError, FileErrorView};
use crate::ident::{FileId, FileIdView, VirtualPath};
use crate::text::{trim_leading, without_leading};
use vstd::prelude::*;
use vstd::slice::slice_to_vec;
use vstd::string::StringSliceAdditionalSpecFns;
use vstd::utf8::{decode_utf8, valid_utf8};

verus! {

/// Calls `std::str::from_utf8`: the bytes are accepted exactly when they are
/// valid UTF-8, and the string handed back then has these very bytes.
#[verifier::external_body]
fn text_from_utf8(bytes: &[u8]) -> (r: Option<&str>)
    ensures
        r is Some <==> valid_utf8(bytes@),
        r matches Some(s) ==> s.spec_bytes() == bytes@,
{
    std::str::from_utf8(bytes).ok()
}

/// A source file: its identifier and its text.
#[derive(Debug, PartialEq, Eq)]
pub struct Source {
    id: FileId,
    text: String,
}

/// The mathematical value of a [`Source`].
pub struct SourceView {
    pub id: FileIdView,
    pub text: Seq<char>,
}

impl View for Source {
    type V = SourceView;

    closed spec fn view(&self) -> SourceView {
        SourceView { id: self.id@, text: self.text@ }
    }
}

impl Clone for Source {
    fn clone(&self) -> (r: Self)
        ensures
            r@ == self@,
    {
        Source { id: self.id.clone(), text: self.text.clone() }
    }
}

impl Source {
    /// A source file with the given identifier and text.
    pub fn new(id: FileId, text: String) -> (r: Source)
        ensures
            r@ == (SourceView { id: id@, text: text@ }),
    {
        Source { id, text }
    }

    /// A source file that belongs to no package and has the path `main.typ`.
    pub fn detached(text: String) -> (r: Source)
        ensures
            r@.text == text@,
            r@.id.package is None,
            r@.id.vpath == crate::ident::vpath_normal_form("main.typ"@),
    {
        Source { id: FileId::new(None, VirtualPath::new("main.typ")), text }
    }

    /// The identifier of the source file.
    pub fn id(&self) -> (r: &FileId)
        ensures
            r@ == self@.id,
    {
        &self.id
    }

    /// The whole text of the source file.
    pub fn text(&self) -> (r: &str)
        ensures
            r@ == self@.text,
    {
        self.text.as_str()
    }
}

/// The byte-order mark that a text file may start with.
pub const BYTE_ORDER_MARK: char = '\u{feff}';

/// The text that the bytes of a source file stand for: decoded as UTF-8,
/// without leading byte-order marks.
pub open spec fn source_text(bytes: Seq<u8>) -> Seq<char> {
    without_leading(decode_utf8(bytes), BYTE_ORDER_MARK)
}

/// What decoding `bytes` as the source file `id` gives.
pub open spec fn bytes_to_source_spec(id: FileIdView, bytes: Seq<u8>) -> Result<
    SourceView,
    FileErrorView,
> {
    if valid_utf8(bytes) {
        Ok(SourceView { id, text: source_text(bytes) })
    } else {
        Err(FileErrorView::InvalidUtf8)
    }
}

/// The view of a resolution of source text.
pub open spec fn source_result_view(r: Result<Source, FileError>) -> Result<
    SourceView,
    FileErrorView,
> {
    match r {
        Ok(s) => Ok(s@),
        Err(e) => Err(e@),
    }
}

/// The view of a resolution of binary data.
pub open spec fn binary_result_view(r: Result<Vec<u8>, FileError>) -> Result<
    Seq<u8>,
    FileErrorView,
> {
    match r {
        Ok(b) => Ok(b@),
        Err(e) => Err(e@),
    }
}

/// Decodes `bytes` as the text of the source file `id`. Bytes that are not
/// valid UTF-8 are rejected; a leading byte-order mark is dropped.
pub fn bytes_to_source(id: FileId, bytes: &[u8]) -> (r: Result<Source, FileError>)
    ensures
        source_result_view(r) == bytes_to_source_spec(id@, bytes@),
{
    match text_from_utf8(bytes) {
        Some(contents) => {
            proof {
                vstd::utf8::encode_utf8_decode_utf8(contents@);
            }
            let text = trim_leading(contents, BYTE_ORDER_MARK);
            Ok(Source::new(id, text))
        },
        None => Err(FileError::InvalidUtf8),
    }
}

/// Which of the two kinds of content is asked for.
#[derive(Debug, Clone, Copy, PartialEq, Eq)]
pub enum ContentKind {
    /// Decoded text.
    Source,
    /// Opaque bytes.
    Binary,
}

/// Resolved content: decoded text or opaque bytes, never both.
#[derive(Debug, PartialEq, Eq)]
pub enum Content {
    /// A source file.
    Source(Source),
    /// Binary data.
    Binary(Vec<u8>),
}

/// The mathematical value of a [`Content`].
pub enum ContentView {
    Source(SourceView),
    Binary(Seq<u8>),
}

impl View for Content {
    type V = ContentView;

    open spec fn view(&self) -> ContentView {
        match *self {
            Content::Source(s) => ContentView::Source(s@),
            Content::Binary(b) => ContentView::Binary(b@),
        }
    }
}

/// The view of a resolution of either kind.
pub open spec fn content_result_view(r: Result<Content, FileError>) -> Result<
    ContentView,
    FileErrorView,
> {
    match r {
        Ok(c) => Ok(c@),
        Err(e) => Err(e@),
    }
}

/// What the bytes `value`, stored under `id`, are as content of the given kind.
pub open spec fn try_create_spec(kind: ContentKind, id: FileIdView, value: Seq<u8>) -> Result<
    ContentView,
    FileErrorView,
> {
    match kind {
        ContentKind::Binary => Ok(ContentView::Binary(value)),
        ContentKind::Source => match bytes_to_source_spec(id, value) {
            Ok(s) => Ok(ContentView::Source(s)),
            Err(e) => Err(e),
        },
    }
}

/// Turns the stored bytes `value` into content of the kind asked for: the
/// bytes themselves, or the source file they decode to.
pub fn try_create(kind: ContentKind, id: FileId, value: &[u8]) -> (r: Result<Content, FileError>)
    ensures
        content_result_view(r) == try_create_spec(kind, id@, value@),
{
    match kind {
        ContentKind::Binary => Ok(Content::Binary(slice_to_vec(value))),
        ContentKind::Source => match bytes_to_source(id, value) {
            Ok(s) => Ok(Content::Source(s)),
            Err(e) => Err(e),
        },
    }
}

} // verus!
