//! Resource identifiers: package specifications, virtual paths and file ids.
//!
//! These are plain values. Two of them are the same resource exactly when
//! their views are equal.

use crate::text::str_eq;
use vstd::prelude::*;

verus! {

/// The text of the rooted path that `typst_syntax::VirtualPath::new` makes of `raw`.
/// Paths are read in the syntax of the platform the library is built for.
pub uninterp spec fn vpath_normal_form(raw: Seq<char>) -> Seq<char>;

/// The text of `typst_syntax::VirtualPath::as_rootless_path` for the virtual path `rooted`.
pub uninterp spec fn vpath_rootless_form(rooted: Seq<char>) -> Seq<char>;

/// The text of what `typst_syntax::VirtualPath::resolve` gives for the virtual
/// path `rooted` under the directory `root`, if it stays inside `root`.
pub uninterp spec fn vpath_resolved(rooted: Seq<char>, root: Seq<char>) -> Option<Seq<char>>;

/// Calls `typst_syntax::VirtualPath::new` and hands back the rooted path as text.
/// The normalisation is a function of the given text alone; the contract names it.
#[verifier::external_body]
fn normalize_vpath(raw: &str) -> (r: String)
    ensures
        r@ == vpath_normal_form(raw@),
{
    typst_syntax::VirtualPath::new(raw).as_rooted_path().to_string_lossy().into_owned()
}

/// Calls `typst_syntax::VirtualPath::as_rootless_path` on the virtual path with
/// the text `rooted`. The result is a function of that text alone; the
/// contract names it.
#[verifier::external_body]
fn rootless_vpath(rooted: &str) -> (r: String)
    ensures
        r@ == vpath_rootless_form(rooted@),
{
    typst_syntax::VirtualPath::new(rooted).as_rootless_path().to_string_lossy().into_owned()
}

/// Calls `typst_syntax::VirtualPath::resolve` on the virtual path with the text
/// `rooted`, against the directory `root`. Nothing on disk is consulted: the
/// result is a function of the two texts, and the contract names it.
#[verifier::external_body]
fn resolve_vpath(rooted: &str, root: &str) -> (r: Option<String>)
    ensures
        match r {
            Some(p) => vpath_resolved(rooted@, root@) == Some(p@),
            None => vpath_resolved(rooted@, root@) is None,
        },
{
    typst_syntax::VirtualPath::new(rooted).resolve(std::path::Path::new(root)).map(
        |p| p.to_string_lossy().into_owned(),
    )
}

/// Identifies a package: namespace, name and version, each an opaque string.
#[derive(Debug, PartialEq, Eq, Hash)]
pub struct PackageSpec {
    /// The namespace the package lives in.
    pub namespace: String,
    /// The name of the package within its namespace.
    pub name: String,
    /// The package's version.
    pub version: String,
}

/// The mathematical value of a [`PackageSpec`].
pub struct PackageSpecView {
    pub namespace: Seq<char>,
    pub name: Seq<char>,
    pub version: Seq<char>,
}

impl View for PackageSpec {
    type V = PackageSpecView;

    open spec fn view(&self) -> PackageSpecView {
        PackageSpecView { namespace: self.namespace@, name: self.name@, version: self.version@ }
    }
}

impl Clone for PackageSpec {
    fn clone(&self) -> (r: Self)
        ensures
            r@ == self@,
    {
        PackageSpec {
            namespace: self.namespace.clone(),
            name: self.name.clone(),
            version: self.version.clone(),
        }
    }
}

impl PackageSpec {
    /// A specification from its three parts.
    pub fn new(namespace: &str, name: &str, version: &str) -> (r: PackageSpec)
        ensures
            r@ == (PackageSpecView { namespace: namespace@, name: name@, version: version@ }),
    {
        PackageSpec {
            namespace: namespace.to_owned(),
            name: name.to_owned(),
            version: version.to_owned(),
        }
    }

    /// Whether all three fields match exactly.
    pub fn same(&self, other: &PackageSpec) -> (r: bool)
        ensures
            r == (self@ == other@),
    {
        self.namespace == other.namespace && self.name == other.name && self.version
            == other.version
    }
}

/// An absolute path in the virtual file system of a project or package.
#[derive(Debug, PartialEq, Eq, Hash)]
pub struct VirtualPath {
    rooted: String,
}

impl View for VirtualPath {
    type V = Seq<char>;

    closed spec fn view(&self) -> Seq<char> {
        self.rooted@
    }
}

impl Clone for VirtualPath {
    fn clone(&self) -> (r: Self)
        ensures
            r@ == self@,
    {
        VirtualPath { rooted: self.rooted.clone() }
    }
}

impl VirtualPath {
    /// The virtual path for `path`, normalised and rooted.
    pub fn new(path: &str) -> (r: VirtualPath)
        ensures
            r@ == vpath_normal_form(path@),
    {
        VirtualPath { rooted: normalize_vpath(path) }
    }

    /// The path with its leading separator.
    pub fn as_rooted_path(&self) -> (r: &str)
        ensures
            r@ == self@,
    {
        self.rooted.as_str()
    }

    /// The path without its leading separator.
    pub fn as_rootless_path(&self) -> (r: String)
        ensures
            r@ == vpath_rootless_form(self@),
    {
        rootless_vpath(self.rooted.as_str())
    }

    /// The real path of this virtual path under the directory `root`, or
    /// `None` if it would leave `root`.
    pub fn resolve(&self, root: &str) -> (r: Option<String>)
        ensures
            match r {
                Some(p) => vpath_resolved(self@, root@) == Some(p@),
                None => vpath_resolved(self@, root@) is None,
            },
    {
        resolve_vpath(self.rooted.as_str(), root)
    }

    /// Whether the two paths are the same.
    pub fn same(&self, other: &VirtualPath) -> (r: bool)
        ensures
            r == (self@ == other@),
    {
        self.rooted == other.rooted
    }
}

/// Identifies a file in a project or package.
#[derive(Debug, PartialEq, Eq, Hash)]
pub struct FileId {
    package: Option<PackageSpec>,
    vpath: VirtualPath,
}

/// The mathematical value of a [`FileId`].
pub struct FileIdView {
    pub package: Option<PackageSpecView>,
    pub vpath: Seq<char>,
}

impl View for FileId {
    type V = FileIdView;

    closed spec fn view(&self) -> FileIdView {
        FileIdView {
            package: match self.package {
                Some(p) => Some(p@),
                None => None,
            },
            vpath: self.vpath@,
        }
    }
}

impl Clone for FileId {
    fn clone(&self) -> (r: Self)
        ensures
            r@ == self@,
    {
        let package = match &self.package {
            Some(p) => Some(p.clone()),
            None => None,
        };
        FileId { package, vpath: self.vpath.clone() }
    }
}

impl FileId {
    /// The id of the file at `vpath` in `package`, or in the project itself
    /// where `package` is `None`.
    pub fn new(package: Option<PackageSpec>, vpath: VirtualPath) -> (r: FileId)
        ensures
            r@.vpath == vpath@,
            match package {
                Some(p) => r@.package == Some(p@),
                None => r@.package is None,
            },
    {
        FileId { package, vpath }
    }

    /// The package the file resides in, if any.
    pub fn package(&self) -> (r: Option<&PackageSpec>)
        ensures
            match r {
                Some(p) => self@.package == Some(p@),
                None => self@.package is None,
            },
    {
        self.package.as_ref()
    }

    /// The path of the file within the project or package.
    pub fn vpath(&self) -> (r: &VirtualPath)
        ensures
            r@ == self@.vpath,
    {
        &self.vpath
    }

    /// Whether both the package reference and the virtual path match.
    pub fn same(&self, other: &FileId) -> (r: bool)
        ensures
            r == (self@ == other@),
    {
        let packages = match (&self.package, &other.package) {
            (Some(a), Some(b)) => a.same(b),
            (None, None) => true,
            _ => false,
        };
        packages && self.vpath.same(&other.vpath)
    }
}

/// Whether `namespace` is the namespace of the public package registry.
pub fn is_registry_namespace(namespace: &str) -> (r: bool)
    ensures
        r == (namespace@ == "preview"@),
{
    str_eq(namespace, "preview")
}

} // verus!
