//! What the bundling pre-pass reads out of TOML files: the dependency table
//! of a package manifest and the configured template directory.

use crate::file_system_resolver::path_option_view;
use crate::ident::{PackageSpec, PackageSpecView};
use crate::imports::spec_views;
use crate::text::{chars_of, find_from, str_eq, string_of};
use vstd::prelude::*;

verus! {

/// The views of a list of table entries: key and, for a string value, its text.
pub open spec fn entry_texts(entries: Seq<(String, Option<String>)>) -> Seq<
    (Seq<char>, Option<Seq<char>>),
> {
    Seq::new(
        entries.len(),
        |i: int|
            (
                entries[i].0@,
                match entries[i].1 {
                    Some(value) => Some(value@),
                    None => None,
                },
            ),
    )
}

/// The texts of a list of keys.
pub open spec fn key_texts(keys: Seq<&str>) -> Seq<Seq<char>> {
    Seq::new(keys.len(), |i: int| keys[i]@)
}

/// The entries of the table that stands in the TOML document `content` under
/// the keys `path`, one below the other: each entry's key and, where its
/// value is a string, that string. `None` if `content` is no TOML document or
/// has no table there.
pub uninterp spec fn toml_table_at(content: Seq<char>, path: Seq<Seq<char>>) -> Option<
    Seq<(Seq<char>, Option<Seq<char>>)>,
>;

/// Parses `content` as a `toml::Table`, descends with `toml::Value::get`
/// along `path`, and lists the table found there (`Value::as_table`), taking
/// each value's string with `Value::as_str`. The outcome depends on the text
/// and the keys alone; the contract names it.
#[verifier::external_body]
fn toml_entries(content: &str, path: &Vec<&str>) -> (r: Option<Vec<(String, Option<String>)>>)
    ensures
        match r {
            Some(entries) => toml_table_at(content@, key_texts(path@)) == Some(
                entry_texts(entries@),
            ),
            None => toml_table_at(content@, key_texts(path@)) is None,
        },
{
    let mut value = toml::Value::Table(content.parse::<toml::Table>().ok()?);
    for key in path {
        value = value.get(*key)?.clone();
    }
    let mut entries = Vec::new();
    for (key, entry) in value.as_table()? {
        entries.push((key.clone(), entry.as_str().map(str::to_owned)));
    }
    Some(entries)
}

/// Splits `s` at its first `separator`: what stands before it and what
/// stands behind it.
pub fn split_once(s: &str, separator: char) -> (r: Option<(String, String)>)
    ensures
        match r {
            Some((before, after)) => s@ == before@ + seq![separator] + after@ && !before@.contains(
                separator,
            ),
            None => !s@.contains(separator),
        },
{
    let chars = chars_of(s);
    let at = find_from(&chars, 0, separator);
    if at == chars.len() {
        return None;
    }
    let before = string_of(&chars, 0, at);
    let after = string_of(&chars, at + 1, chars.len());
    proof {
        assert(s@ =~= before@ + seq![separator] + after@);
        if before@.contains(separator) {
            let j = choose|j: int| 0 <= j < before@.len() && before@[j] == separator;
            assert(chars@[j] == separator);
        }
    }
    Some((before, after))
}

/// The dependency that one entry of a dependency table declares: the entry
/// `name = "namespace:version"` declares the package `namespace/name` in
/// that version. An entry whose value is no string, or has no `:`, declares
/// nothing.
pub open spec fn declared_dependency(
    entry: (Seq<char>, Option<Seq<char>>),
    package: PackageSpecView,
) -> bool {
    entry.1 matches Some(value) && value == package.namespace + seq![':'] + package.version
        && !package.namespace.contains(':') && package.name == entry.0
}

/// Whether an entry of a dependency table declares a dependency.
pub open spec fn declares(entry: (Seq<char>, Option<Seq<char>>)) -> bool {
    entry.1 matches Some(value) && value.contains(':')
}

/// Whether `dependencies` are the dependencies that `entries` declare, in order.
pub open spec fn are_dependencies_of(
    dependencies: Seq<PackageSpecView>,
    entries: Seq<(Seq<char>, Option<Seq<char>>)>,
) -> bool
    decreases entries.len(),
{
    if entries.len() == 0 {
        dependencies.len() == 0
    } else if declares(entries.last()) {
        dependencies.len() > 0 && declared_dependency(entries.last(), dependencies.last())
            && are_dependencies_of(dependencies.drop_last(), entries.drop_last())
    } else {
        are_dependencies_of(dependencies, entries.drop_last())
    }
}

/// The dependencies that the entries of a dependency table declare, in the
/// order of the entries.
pub fn dependencies_of(entries: Vec<(String, Option<String>)>) -> (r: Vec<PackageSpec>)
    ensures
        are_dependencies_of(spec_views(r@), entry_texts(entries@)),
{
    let ghost items = entries@;
    let ghost texts = entry_texts(items);
    let mut dependencies: Vec<PackageSpec> = Vec::new();
    for entry in it: entries
        invariant
            it.seq() == items,
            texts == entry_texts(items),
            are_dependencies_of(spec_views(dependencies@), texts.take(it.index() as int)),
    {
        let ghost n = it.index() as int;
        let ghost before = dependencies@;
        proof {
            assert(texts.take(n + 1).drop_last() =~= texts.take(n));
            assert(texts.take(n + 1).last() == texts[n]);
        }
        let (name, value) = entry;
        match value {
            Some(value) => {
                match split_once(value.as_str(), ':') {
                    Some((namespace, version)) => {
                        proof {
                            assert(value@[namespace@.len() as int] == ':');
                        }
                        let package = PackageSpec { namespace, name, version };
                        dependencies.push(package);
                        proof {
                            assert(spec_views(dependencies@).drop_last() =~= spec_views(before));
                            assert(spec_views(dependencies@).last() == package@);
                        }
                    },
                    None => {},
                }
            },
            None => {},
        }
    }
    assert(texts.take(items.len() as int) =~= texts);
    dependencies
}

/// The packages that the manifest `content` of a package declares as its
/// dependencies, in the table `dependencies` of its section `package`. A
/// manifest that cannot be read, or has no such table, declares none.
pub fn manifest_dependencies(content: &str) -> (r: Vec<PackageSpec>)
    ensures
        match toml_table_at(content@, seq!["package"@, "dependencies"@]) {
            Some(entries) => are_dependencies_of(spec_views(r@), entries),
            None => r@.len() == 0,
        },
{
    let mut path: Vec<&str> = Vec::new();
    path.push("package");
    path.push("dependencies");
    assert(key_texts(path@) =~= seq!["package"@, "dependencies"@]);
    match toml_entries(content, &path) {
        Some(entries) => dependencies_of(entries),
        None => Vec::new(),
    }
}

/// The key of the template directory in the project configuration.
pub const TEMPLATE_DIR_KEY: &'static str = "template-dir";

/// The string value of the first entry of `entries` with the key `key`.
pub open spec fn string_entry(entries: Seq<(Seq<char>, Option<Seq<char>>)>, key: Seq<char>) -> Option<
    Seq<char>,
>
    decreases entries.len(),
{
    if entries.len() == 0 {
        None
    } else if entries[0].0 == key {
        entries[0].1
    } else {
        string_entry(entries.drop_first(), key)
    }
}

/// The string value of the first entry of `entries` with the key `key`;
/// `None` if there is no such entry or its value is no string.
pub fn find_string_entry(entries: &Vec<(String, Option<String>)>, key: &str) -> (r: Option<String>)
    ensures
        path_option_view(r) == string_entry(entry_texts(entries@), key@),
{
    let ghost texts = entry_texts(entries@);
    let mut i: usize = 0;
    assert(texts.skip(0) =~= texts);
    while i < entries.len()
        invariant
            i <= entries.len(),
            texts == entry_texts(entries@),
            string_entry(texts, key@) == string_entry(texts.skip(i as int), key@),
        decreases entries.len() - i,
    {
        proof {
            assert(texts.skip(i as int).drop_first() =~= texts.skip(i + 1));
            assert(texts.skip(i as int)[0] == texts[i as int]);
        }
        if str_eq(entries[i].0.as_str(), key) {
            return entries[i].1.clone();
        }
        i = i + 1;
    }
    None
}

/// Where the template directory is configured: an explicit override comes
/// first, then the project configuration; `None` if neither names one.
pub open spec fn template_dir_spec(
    explicit: Option<Seq<char>>,
    configured: Option<Seq<(Seq<char>, Option<Seq<char>>)>>,
) -> Option<Seq<char>> {
    match explicit {
        Some(dir) => Some(dir),
        None => match configured {
            Some(entries) => string_entry(entries, TEMPLATE_DIR_KEY@),
            None => None,
        },
    }
}

/// The template directory, given the explicit override, if there is one,
/// and the entries of the project's configuration table, if it has one.
pub fn choose_template_dir(
    explicit: Option<String>,
    configured: Option<Vec<(String, Option<String>)>>,
) -> (r: Option<String>)
    ensures
        path_option_view(r) == template_dir_spec(
            path_option_view(explicit),
            match configured {
                Some(entries) => Some(entry_texts(entries@)),
                None => None,
            },
        ),
{
    match explicit {
        Some(dir) => Some(dir),
        None => match configured {
            Some(entries) => find_string_entry(&entries, TEMPLATE_DIR_KEY),
            None => None,
        },
    }
}

/// The template directory of a build: the explicit override `explicit`, or
/// else the entry `template-dir` of the table `package.metadata.typst-as-lib`
/// in the project manifest `project_manifest`. `None` means that the build
/// is not configured and must not go on.
pub fn template_dir(explicit: Option<String>, project_manifest: Option<String>) -> (r: Option<
    String,
>)
    ensures
        path_option_view(r) == template_dir_spec(
            path_option_view(explicit),
            match project_manifest {
                Some(content) => toml_table_at(
                    content@,
                    seq!["package"@, "metadata"@, "typst-as-lib"@],
                ),
                None => None,
            },
        ),
{
    let configured = match &project_manifest {
        Some(content) => {
            let mut path: Vec<&str> = Vec::new();
            path.push("package");
            path.push("metadata");
            path.push("typst-as-lib");
            assert(key_texts(path@) =~= seq!["package"@, "metadata"@, "typst-as-lib"@]);
            toml_entries(content.as_str(), &path)
        },
        None => None,
    };
    choose_template_dir(explicit, configured)
}

} // verus!
