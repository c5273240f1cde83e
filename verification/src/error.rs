//! The errors a resolution can end in.

use crate::ident::FileId;
use vstd::prelude::*;

verus! {

/// An error that occurred while loading a package.
#[derive(Debug, PartialEq, Eq)]
pub enum PackageError {
    /// The registry could not be reached, or answered with a failure.
    NetworkFailed(Option<String>),
    /// The package archive could not be decompressed or unpacked.
    MalformedArchive(Option<String>),
    /// Another error.
    Other(Option<String>),
}

/// The mathematical value of a [`PackageError`].
pub enum PackageErrorView {
    NetworkFailed(Option<Seq<char>>),
    MalformedArchive(Option<Seq<char>>),
    Other(Option<Seq<char>>),
}

/// An error that occurred while loading a file.
#[derive(Debug, PartialEq, Eq)]
pub enum FileError {
    /// No file was found at this path.
    NotFound(String),
    /// The file could not be accessed.
    AccessDenied,
    /// The file was expected to be text and is not valid UTF-8.
    InvalidUtf8,
    /// The package the file is part of could not be loaded.
    Package(PackageError),
    /// Another error.
    Other(Option<String>),
}

/// The mathematical value of a [`FileError`].
pub enum FileErrorView {
    NotFound(Seq<char>),
    AccessDenied,
    InvalidUtf8,
    Package(PackageErrorView),
    Other(Option<Seq<char>>),
}

/// The view of an optional message.
pub open spec fn message_view(m: Option<String>) -> Option<Seq<char>> {
    match m {
        Some(s) => Some(s@),
        None => None,
    }
}

impl View for PackageError {
    type V = PackageErrorView;

    open spec fn view(&self) -> PackageErrorView {
        match *self {
            PackageError::NetworkFailed(m) => PackageErrorView::NetworkFailed(message_view(m)),
            PackageError::MalformedArchive(m) => PackageErrorView::MalformedArchive(
                message_view(m),
            ),
            PackageError::Other(m) => PackageErrorView::Other(message_view(m)),
        }
    }
}

impl View for FileError {
    type V = FileErrorView;

    open spec fn view(&self) -> FileErrorView {
        match *self {
            FileError::NotFound(p) => FileErrorView::NotFound(p@),
            FileError::AccessDenied => FileErrorView::AccessDenied,
            FileError::InvalidUtf8 => FileErrorView::InvalidUtf8,
            FileError::Package(e) => FileErrorView::Package(e@),
            FileError::Other(m) => FileErrorView::Other(message_view(m)),
        }
    }
}

impl Clone for PackageError {
    fn clone(&self) -> (r: Self)
        ensures
            r@ == self@,
    {
        match self {
            PackageError::NetworkFailed(m) => PackageError::NetworkFailed(m.clone()),
            PackageError::MalformedArchive(m) => PackageError::MalformedArchive(m.clone()),
            PackageError::Other(m) => PackageError::Other(m.clone()),
        }
    }
}

impl Clone for FileError {
    fn clone(&self) -> (r: Self)
        ensures
            r@ == self@,
    {
        match self {
            FileError::NotFound(p) => FileError::NotFound(p.clone()),
            FileError::AccessDenied => FileError::AccessDenied,
            FileError::InvalidUtf8 => FileError::InvalidUtf8,
            FileError::Package(e) => FileError::Package(e.clone()),
            FileError::Other(m) => FileError::Other(m.clone()),
        }
    }
}

/// The error for an identifier that no resolver has content for: it carries
/// the identifier's virtual path.
pub open spec fn not_found_view(vpath: Seq<char>) -> FileErrorView {
    FileErrorView::NotFound(vpath)
}

/// The not-found error for `id`.
pub fn not_found(id: &FileId) -> (r: FileError)
    ensures
        r@ == not_found_view(id@.vpath),
{
    FileError::NotFound(id.vpath().as_rooted_path().to_owned())
}

} // verus!
