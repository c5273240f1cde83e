//! Resolvers for files on disk: where a file id is to be read from.
//!
//! Reading the file is left to the caller; what is decided here is the path.

use crate::error::{not_found, not_found_view, FileError, FileErrorView};
use crate::ident::{vpath_resolved, FileId, FileIdView};
use crate::paths::{join_path, os_data_dir, package_dir, package_dir_spec, path_joined};
use vstd::prelude::*;

verus! {

/// The default packages sub directory within the package and package cache paths.
pub const DEFAULT_PACKAGES_SUBDIR: &'static str = "typst/packages";

/// The view of a path that was found, or of the error.
pub open spec fn path_result_view(r: Result<String, FileError>) -> Result<Seq<char>, FileErrorView> {
    match r {
        Ok(p) => Ok(p@),
        Err(e) => Err(e@),
    }
}

/// The view of an optional path.
pub open spec fn path_option_view(p: Option<String>) -> Option<Seq<char>> {
    match p {
        Some(s) => Some(s@),
        None => None,
    }
}

/// Resolves project files under a root directory and package files under a
/// directory of local packages.
#[derive(Debug)]
pub struct FileSystemResolver {
    root: String,
    local_package_root: Option<String>,
}

impl FileSystemResolver {
    /// The directory of the project's own files.
    pub closed spec fn root_view(&self) -> Seq<char> {
        self.root@
    }

    /// The directory of local packages, if one was set.
    pub closed spec fn package_root_view(&self) -> Option<Seq<char>> {
        path_option_view(self.local_package_root)
    }

    /// A resolver for the project under `root`. The root is kept with the
    /// empty path joined to it, which gives it a trailing separator.
    pub fn new(root: String) -> (r: Self)
        ensures
            r.root_view() == path_joined(root@, ""@),
            r.package_root_view() is None,
    {
        FileSystemResolver { root: join_path(root.as_str(), ""), local_package_root: None }
    }

    /// Looks for local packages under `path`.
    pub fn with_local_package_root(self, path: String) -> (r: Self)
        ensures
            r.root_view() == self.root_view(),
            r.package_root_view() == Some(path@),
    {
        FileSystemResolver { root: self.root, local_package_root: Some(path) }
    }

    /// Looks for local packages under `local_package_root`.
    pub fn local_package_root(self, local_package_root: String) -> (r: Self)
        ensures
            r.root_view() == self.root_view(),
            r.package_root_view() == Some(local_package_root@),
    {
        FileSystemResolver { root: self.root, local_package_root: Some(local_package_root) }
    }

    /// The directory under which `id` is looked for: the project root for a
    /// project file; for a package file the package's directory under the
    /// local package root or, where none was set, under the packages
    /// directory of the user's data directory `data_dir`.
    pub open spec fn search_dir(&self, id: FileIdView, data_dir: Option<Seq<char>>) -> Result<
        Seq<char>,
        FileErrorView,
    > {
        match id.package {
            Some(package) => match self.package_root_view() {
                Some(local) => Ok(
                    package_dir_spec(local, package.namespace, package.name, package.version),
                ),
                None => match data_dir {
                    Some(dir) => Ok(
                        package_dir_spec(
                            path_joined(dir, DEFAULT_PACKAGES_SUBDIR@),
                            package.namespace,
                            package.name,
                            package.version,
                        ),
                    ),
                    None => Err(FileErrorView::Other(Some("No data dir set!"@))),
                },
            },
            None => Ok(self.root_view()),
        }
    }

    /// The path from which `id` is to be read, or the error where there is
    /// none: a virtual path that leaves its directory is not found.
    pub open spec fn location(&self, id: FileIdView, data_dir: Option<Seq<char>>) -> Result<
        Seq<char>,
        FileErrorView,
    > {
        match self.search_dir(id, data_dir) {
            Ok(dir) => match vpath_resolved(id.vpath, dir) {
                Some(path) => Ok(path),
                None => Err(FileErrorView::NotFound(dir)),
            },
            Err(e) => Err(e),
        }
    }

    /// The path from which `id` is to be read, with `data_dir` as the user's
    /// data directory.
    pub fn locate_with(&self, id: &FileId, data_dir: Option<String>) -> (r: Result<
        String,
        FileError,
    >)
        ensures
            path_result_view(r) == self.location(id@, path_option_view(data_dir)),
    {
        let dir = match id.package() {
            Some(package) => match &self.local_package_root {
                Some(local) => package_dir(local.as_str(), package),
                None => match data_dir {
                    Some(dir) => {
                        let packages = join_path(dir.as_str(), DEFAULT_PACKAGES_SUBDIR);
                        package_dir(packages.as_str(), package)
                    },
                    None => {
                        return Err(FileError::Other(Some("No data dir set!".to_owned())));
                    },
                },
            },
            None => self.root.clone(),
        };
        match id.vpath().resolve(dir.as_str()) {
            Some(path) => Ok(path),
            None => Err(FileError::NotFound(dir)),
        }
    }

    /// The path from which `id` is to be read. The user's data directory is
    /// asked for only where it is needed: for a package file, when no local
    /// package root was set.
    pub fn locate(&self, id: &FileId) -> (r: Result<String, FileError>)
        ensures
            exists|data_dir: Option<Seq<char>>|
                path_result_view(r) == #[trigger] self.location(id@, data_dir),
            id@.package is None || self.package_root_view() is Some ==> path_result_view(r)
                == self.location(id@, None),
    {
        let needs_data_dir = id.package().is_some() && self.local_package_root.is_none();
        let data_dir = if needs_data_dir {
            os_data_dir()
        } else {
            None
        };
        let r = self.locate_with(id, data_dir);
        assert(path_result_view(r) == self.location(id@, path_option_view(data_dir)));
        r
    }
}

/// Resolves project files under a root directory; package files are not found.
#[derive(Debug)]
pub struct FileSystemFileResolver {
    root: String,
}

impl FileSystemFileResolver {
    /// The directory of the project's files.
    pub closed spec fn root_view(&self) -> Seq<char> {
        self.root@
    }

    /// A resolver for the project under `root`.
    pub fn new(root: String) -> (r: Self)
        ensures
            r.root_view() == root@,
    {
        FileSystemFileResolver { root }
    }

    /// The path from which `id` is to be read: a package file is not found,
    /// and a virtual path that leaves the root is denied.
    pub open spec fn location(&self, id: FileIdView) -> Result<Seq<char>, FileErrorView> {
        if id.package is Some {
            Err(not_found_view(id.vpath))
        } else {
            match vpath_resolved(id.vpath, self.root_view()) {
                Some(path) => Ok(path),
                None => Err(FileErrorView::AccessDenied),
            }
        }
    }

    /// The path from which `id` is to be read.
    pub fn locate(&self, id: &FileId) -> (r: Result<String, FileError>)
        ensures
            path_result_view(r) == self.location(id@),
    {
        if id.package().is_some() {
            return Err(not_found(id));
        }
        match id.vpath().resolve(self.root.as_str()) {
            Some(path) => Ok(path),
            None => Err(FileError::AccessDenied),
        }
    }
}

} // verus!
