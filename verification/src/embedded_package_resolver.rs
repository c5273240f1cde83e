//! Packages that are part of the program itself: a tree of embedded files,
//! flattened into one map from path to contents.

use crate::error::{not_found, not_found_view, FileError, FileErrorView};
use crate::file_resolver::FileResolver;
use crate::ident::{vpath_rootless_form, FileId, FileIdView};
use crate::table::Table;
use crate::text::{replace_char, replaced};
use crate::util::{bytes_to_source, bytes_to_source_spec, Source, SourceView};
use vstd::prelude::*;
use vstd::string::StringExecFns;

verus! {

/// An embedded file: its path from the root of the embedded tree, and its contents.
#[derive(Debug)]
pub struct EmbeddedFile {
    pub path: String,
    pub contents: Vec<u8>,
}

/// An embedded directory: its files and its subdirectories.
#[derive(Debug)]
pub struct EmbeddedDir {
    pub files: Vec<EmbeddedFile>,
    pub dirs: Vec<EmbeddedDir>,
}

/// The key under which the file with the path `path` is kept: the path with
/// `/` as its only separator.
pub open spec fn embedded_key(path: Seq<char>) -> Seq<char> {
    replaced(path, '\\', '/')
}

/// `map` with the files `files`, each under its key.
pub open spec fn with_files(map: Map<Seq<char>, Seq<u8>>, files: Seq<EmbeddedFile>) -> Map<
    Seq<char>,
    Seq<u8>,
>
    decreases files.len(),
{
    if files.len() == 0 {
        map
    } else {
        with_files(map, files.drop_last()).insert(
            embedded_key(files.last().path@),
            files.last().contents@,
        )
    }
}

/// `map` with all files of `dir`: its own files first, then those of its
/// subdirectories, in order.
pub open spec fn with_dir(map: Map<Seq<char>, Seq<u8>>, dir: EmbeddedDir) -> Map<
    Seq<char>,
    Seq<u8>,
>
    decreases dir, 1nat, 0nat,
{
    with_dirs(with_files(map, dir.files@), dir, dir.dirs@.len())
}

/// `map` with all files of the first `n` subdirectories of `dir`.
pub open spec fn with_dirs(map: Map<Seq<char>, Seq<u8>>, dir: EmbeddedDir, n: nat) -> Map<
    Seq<char>,
    Seq<u8>,
>
    decreases dir, 0nat, n,
    when n <= dir.dirs@.len()
    via with_dirs_decreases
{
    if n == 0 {
        map
    } else {
        with_dir(with_dirs(map, dir, (n - 1) as nat), dir.dirs@[n - 1])
    }
}

#[via_fn]
proof fn with_dirs_decreases(map: Map<Seq<char>, Seq<u8>>, dir: EmbeddedDir, n: nat) {
    if n != 0 {
        vstd::std_specs::vec::axiom_vec_index_decreases(dir.dirs, n - 1);
    }
}

/// Adds all files of `dir` and of the directories below it to `map`.
pub fn collect_files(dir: &EmbeddedDir, map: &mut Table<String, Vec<u8>>)
    ensures
        final(map)@ == with_dir(old(map)@, *dir),
    decreases dir,
{
    let mut i: usize = 0;
    while i < dir.files.len()
        invariant
            i <= dir.files.len(),
            map@ == with_files(old(map)@, dir.files@.take(i as int)),
        decreases dir.files.len() - i,
    {
        let file = &dir.files[i];
        proof {
            assert(dir.files@.take(i + 1).drop_last() =~= dir.files@.take(i as int));
        }
        map.insert(replace_char(file.path.as_str(), '\\', '/'), file.contents.clone());
        i = i + 1;
    }
    assert(dir.files@.take(dir.files.len() as int) =~= dir.files@);
    let ghost own = map@;
    let mut j: usize = 0;
    while j < dir.dirs.len()
        invariant
            j <= dir.dirs.len(),
            own == with_files(old(map)@, dir.files@),
            map@ == with_dirs(own, *dir, j as nat),
        decreases dir.dirs.len() - j,
    {
        proof {
            vstd::std_specs::vec::axiom_vec_index_decreases(dir.dirs, j as int);
        }
        collect_files(&dir.dirs[j], map);
        j = j + 1;
    }
}

/// The path under which the file `id` is embedded:
/// `namespace/name/version/path` for a package file, the path alone for a
/// project file; the path without its leading separator.
pub open spec fn embedded_path(id: FileIdView) -> Seq<char> {
    match id.package {
        Some(package) => package.namespace + "/"@ + package.name + "/"@ + package.version + "/"@
            + vpath_rootless_form(id.vpath),
        None => vpath_rootless_form(id.vpath),
    }
}

/// Serves the files of packages that are embedded in the program.
#[derive(Debug)]
pub struct EmbeddedPackageResolver {
    files: Table<String, Vec<u8>>,
}

impl EmbeddedPackageResolver {
    /// The embedded files, by path.
    pub closed spec fn files(&self) -> Map<Seq<char>, Seq<u8>> {
        self.files@
    }

    /// A resolver that serves the files of the embedded tree `packages`.
    pub fn new(packages: &EmbeddedDir) -> (r: Self)
        ensures
            r.files() == with_dir(Map::<Seq<char>, Seq<u8>>::empty(), *packages),
    {
        let mut files: Table<String, Vec<u8>> = Table::new();
        collect_files(packages, &mut files);
        EmbeddedPackageResolver { files }
    }

    /// The path under which the file `id` is embedded.
    pub fn file_path(&self, id: &FileId) -> (r: String)
        ensures
            r@ == embedded_path(id@),
    {
        let rootless = id.vpath().as_rootless_path();
        match id.package() {
            Some(package) => {
                let mut path = package.namespace.clone();
                path.append("/");
                path.append(package.name.as_str());
                path.append("/");
                path.append(package.version.as_str());
                path.append("/");
                path.append(rootless.as_str());
                path
            },
            None => rootless,
        }
    }
}

impl FileResolver for EmbeddedPackageResolver {
    open spec fn answers_binary(
        &self,
        id: FileIdView,
        answer: Result<Seq<u8>, FileErrorView>,
    ) -> bool {
        answer == if self.files().contains_key(embedded_path(id)) {
            Ok::<Seq<u8>, FileErrorView>(self.files()[embedded_path(id)])
        } else {
            Err::<Seq<u8>, FileErrorView>(not_found_view(id.vpath))
        }
    }

    open spec fn answers_source(
        &self,
        id: FileIdView,
        answer: Result<SourceView, FileErrorView>,
    ) -> bool {
        answer == if self.files().contains_key(embedded_path(id)) {
            bytes_to_source_spec(id, self.files()[embedded_path(id)])
        } else {
            Err::<SourceView, FileErrorView>(not_found_view(id.vpath))
        }
    }

    fn resolve_binary(&mut self, id: &FileId) -> (r: Result<Vec<u8>, FileError>)
        ensures
            *final(self) == *old(self),
    {
        let path = self.file_path(id);
        match self.files.get(&path) {
            Some(bytes) => Ok(bytes.clone()),
            None => Err(not_found(id)),
        }
    }

    fn resolve_source(&mut self, id: &FileId) -> (r: Result<Source, FileError>)
        ensures
            *final(self) == *old(self),
    {
        let path = self.file_path(id);
        match self.files.get(&path) {
            Some(bytes) => bytes_to_source(id.clone(), bytes.as_slice()),
            None => Err(not_found(id)),
        }
    }
}

} // verus!
