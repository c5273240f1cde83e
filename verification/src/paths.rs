//! Real paths, held as text, and the directories the operating system offers.

use crate::ident::PackageSpec;
use vstd::prelude::*;

verus! {

/// The text of the path that `std::path::Path::join` makes of `base` and `rel`.
/// Paths are read in the syntax of the platform the library is built for.
pub uninterp spec fn path_joined(base: Seq<char>, rel: Seq<char>) -> Seq<char>;

/// Calls `std::path::Path::join`. Joining looks at the two paths only, never at
/// the disk; the contract names the result.
#[verifier::external_body]
pub(crate) fn join_path(base: &str, rel: &str) -> (r: String)
    ensures
        r@ == path_joined(base@, rel@),
{
    std::path::Path::new(base).join(rel).to_string_lossy().into_owned()
}

/// Calls `dirs::cache_dir`: the user's cache directory, if the environment
/// names one. Nothing is claimed of the answer.
#[verifier::external_body]
pub(crate) fn os_cache_dir() -> Option<String> {
    dirs::cache_dir().map(|p| p.to_string_lossy().into_owned())
}

/// Calls `dirs::data_dir`: the user's data directory, if the environment
/// names one. Nothing is claimed of the answer.
#[verifier::external_body]
pub(crate) fn os_data_dir() -> Option<String> {
    dirs::data_dir().map(|p| p.to_string_lossy().into_owned())
}

/// The directory of `package` under `root`: `root/namespace/name/version`.
pub open spec fn package_dir_spec(
    root: Seq<char>,
    namespace: Seq<char>,
    name: Seq<char>,
    version: Seq<char>,
) -> Seq<char> {
    path_joined(root, path_joined(path_joined(namespace, name), version))
}

/// The directory that holds the unpacked files of `package` under `root`:
/// the subdirectory `namespace/name/version`.
pub fn package_dir(root: &str, package: &PackageSpec) -> (r: String)
    ensures
        r@ == package_dir_spec(root@, package@.namespace, package@.name, package@.version),
{
    let subdir = join_path(
        join_path(package.namespace.as_str(), package.name.as_str()).as_str(),
        package.version.as_str(),
    );
    join_path(root, subdir.as_str())
}

} // verus!
