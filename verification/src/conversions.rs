//! Conversions of plain values into file ids, sources and bytes.

use crate::ident::{vpath_normal_form, FileId, FileIdView, PackageSpec, VirtualPath};
use crate::util::{Source, SourceView};
use vstd::prelude::*;
use vstd::slice::slice_to_vec;

verus! {

/// What can stand for a file id.
pub trait IntoFileId: Sized {
    /// The id that `self` stands for.
    spec fn file_id(&self) -> FileIdView;

    /// The id that `self` stands for.
    fn into_file_id(self) -> (r: FileId)
        ensures
            r@ == self.file_id(),
    ;
}

impl IntoFileId for FileId {
    open spec fn file_id(&self) -> FileIdView {
        self@
    }

    fn into_file_id(self) -> (r: FileId) {
        self
    }
}

/// A path stands for the file at that virtual path in the project itself.
impl<'a> IntoFileId for &'a str {
    open spec fn file_id(&self) -> FileIdView {
        FileIdView { package: None, vpath: vpath_normal_form(self@) }
    }

    fn into_file_id(self) -> (r: FileId) {
        FileId::new(None, VirtualPath::new(self))
    }
}

/// A package and a path stand for the file at that virtual path in the package.
impl<'a> IntoFileId for (PackageSpec, &'a str) {
    open spec fn file_id(&self) -> FileIdView {
        FileIdView { package: Some(self.0@), vpath: vpath_normal_form(self.1@) }
    }

    fn into_file_id(self) -> (r: FileId) {
        let (package, path) = self;
        FileId::new(Some(package), VirtualPath::new(path))
    }
}

/// What can stand for a source file.
pub trait IntoSource: Sized {
    /// The source file that `self` stands for.
    spec fn source(&self) -> SourceView;

    /// The source file that `self` stands for.
    fn into_source(self) -> (r: Source)
        ensures
            r@ == self.source(),
    ;
}

impl IntoSource for Source {
    open spec fn source(&self) -> SourceView {
        self@
    }

    fn into_source(self) -> (r: Source) {
        self
    }
}

/// A path and a text stand for the project file at that path.
impl<'a> IntoSource for (&'a str, String) {
    open spec fn source(&self) -> SourceView {
        SourceView {
            id: FileIdView { package: None, vpath: vpath_normal_form(self.0@) },
            text: self.1@,
        }
    }

    fn into_source(self) -> (r: Source) {
        let (path, text) = self;
        Source::new(FileId::new(None, VirtualPath::new(path)), text)
    }
}

/// A path and a text stand for the project file at that path.
impl<'a, 'b> IntoSource for (&'a str, &'b str) {
    open spec fn source(&self) -> SourceView {
        SourceView {
            id: FileIdView { package: None, vpath: vpath_normal_form(self.0@) },
            text: self.1@,
        }
    }

    fn into_source(self) -> (r: Source) {
        let (path, text) = self;
        Source::new(FileId::new(None, VirtualPath::new(path)), text.to_owned())
    }
}

impl IntoSource for (FileId, String) {
    open spec fn source(&self) -> SourceView {
        SourceView { id: self.0@, text: self.1@ }
    }

    fn into_source(self) -> (r: Source) {
        let (id, text) = self;
        Source::new(id, text)
    }
}

impl<'a> IntoSource for (FileId, &'a str) {
    open spec fn source(&self) -> SourceView {
        SourceView { id: self.0@, text: self.1@ }
    }

    fn into_source(self) -> (r: Source) {
        let (id, text) = self;
        Source::new(id, text.to_owned())
    }
}

/// The path that a source without a path of its own gets.
pub open spec fn detached_id() -> FileIdView {
    FileIdView { package: None, vpath: vpath_normal_form("main.typ"@) }
}

/// A text alone stands for a detached source file.
impl IntoSource for String {
    open spec fn source(&self) -> SourceView {
        SourceView { id: detached_id(), text: self@ }
    }

    fn into_source(self) -> (r: Source) {
        Source::detached(self)
    }
}

/// A text alone stands for a detached source file.
impl<'a> IntoSource for &'a str {
    open spec fn source(&self) -> SourceView {
        SourceView { id: detached_id(), text: self@ }
    }

    fn into_source(self) -> (r: Source) {
        Source::detached(self.to_owned())
    }
}

/// What can stand for binary data.
pub trait IntoBytes: Sized {
    /// The bytes that `self` stands for.
    spec fn bytes(&self) -> Seq<u8>;

    /// The bytes that `self` stands for.
    fn into_bytes(self) -> (r: Vec<u8>)
        ensures
            r@ == self.bytes(),
    ;
}

impl<'a> IntoBytes for &'a [u8] {
    open spec fn bytes(&self) -> Seq<u8> {
        self@
    }

    fn into_bytes(self) -> (r: Vec<u8>) {
        slice_to_vec(self)
    }
}

impl IntoBytes for Vec<u8> {
    open spec fn bytes(&self) -> Seq<u8> {
        self@
    }

    fn into_bytes(self) -> (r: Vec<u8>) {
        self
    }
}

} // verus!
