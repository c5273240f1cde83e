use typst_as_lib::cached_file_resolver::IntoCachedFileResolver;
use typst_as_lib::conversions::{IntoBytes, IntoFileId, IntoSource};
use typst_as_lib::embedded_package_resolver::{
    EmbeddedDir, EmbeddedFile, EmbeddedPackageResolver,
};
use typst_as_lib::error::{not_found, FileError};
use typst_as_lib::file_resolver::FileResolver;
use typst_as_lib::file_system_resolver::{FileSystemFileResolver, FileSystemResolver};
use typst_as_lib::font_searcher_options::FontSearcherOptions;
use typst_as_lib::ident::{is_registry_namespace, FileId, PackageSpec, VirtualPath};
use typst_as_lib::package_resolver::PackageResolver;
use typst_as_lib::typst_kit_options::TypstKitFontOptions;
use typst_as_lib::util::{bytes_to_source, try_create, Content, ContentKind, Source};

fn cetz() -> PackageSpec {
    PackageSpec::new("preview", "cetz", "0.3.2")
}

fn file(path: &str, contents: &[u8]) -> EmbeddedFile {
    EmbeddedFile { path: path.to_string(), contents: contents.to_vec() }
}

#[test]
fn virtual_paths_are_normalised_and_rooted() {
    assert_eq!(VirtualPath::new("a/./b/../c.typ").as_rooted_path(), "/a/c.typ");
    assert_eq!(VirtualPath::new("/a/c.typ").as_rooted_path(), "/a/c.typ");
    assert_eq!(VirtualPath::new("a/c.typ").as_rootless_path(), "a/c.typ");
    assert_eq!(VirtualPath::new("a/c.typ"), VirtualPath::new("/a/x/../c.typ"));
    assert_eq!(
        VirtualPath::new("a/c.typ").resolve("/project"),
        Some("/project/a/c.typ".to_string())
    );
    assert_eq!(VirtualPath::new("../c.typ").resolve("/project"), None);
}

#[test]
fn file_ids_are_equal_by_value() {
    let a = FileId::new(Some(cetz()), VirtualPath::new("lib.typ"));
    let b = FileId::new(Some(cetz()), VirtualPath::new("/lib.typ"));
    let c = FileId::new(None, VirtualPath::new("lib.typ"));
    let d = FileId::new(Some(PackageSpec::new("preview", "cetz", "0.3.3")), VirtualPath::new("lib.typ"));
    assert!(a.same(&b));
    assert_eq!(a, b);
    assert!(!a.same(&c));
    assert!(!a.same(&d));
    assert!(!c.same(&a));
    assert_eq!(a.package(), Some(&cetz()));
    assert_eq!(c.package(), None);
    assert_eq!(a.vpath().as_rooted_path(), "/lib.typ");
    assert!(cetz().same(&cetz()));
    assert!(!cetz().same(&PackageSpec::new("preview", "cetz2", "0.3.2")));
    assert!(is_registry_namespace("preview"));
    assert!(!is_registry_namespace("local"));
}

#[test]
fn not_found_carries_the_virtual_path() {
    let id = FileId::new(Some(cetz()), VirtualPath::new("src/lib.typ"));
    assert_eq!(not_found(&id), FileError::NotFound("/src/lib.typ".to_string()));
}

#[test]
fn sources_are_decoded_and_lose_their_byte_order_mark() {
    let id = FileId::new(None, VirtualPath::new("a.typ"));
    let source = bytes_to_source(id.clone(), "\u{feff}h\u{e9}llo".as_bytes()).unwrap();
    assert_eq!(source.text(), "h\u{e9}llo");
    assert_eq!(source.id(), &id);
    assert_eq!(bytes_to_source(id.clone(), b"plain").unwrap().text(), "plain");
    assert_eq!(bytes_to_source(id.clone(), b"").unwrap().text(), "");
    assert_eq!(bytes_to_source(id.clone(), &[b'a', 0xff]), Err(FileError::InvalidUtf8));
    assert_eq!(
        try_create(ContentKind::Binary, id.clone(), &[b'a', 0xff]),
        Ok(Content::Binary(vec![b'a', 0xff]))
    );
    assert_eq!(
        try_create(ContentKind::Source, id.clone(), &[b'a', 0xff]),
        Err(FileError::InvalidUtf8)
    );
    assert_eq!(
        try_create(ContentKind::Source, id.clone(), b"x"),
        Ok(Content::Source(Source::new(id, "x".to_string())))
    );
}

#[test]
fn conversions_give_the_ids_and_sources_they_stand_for() {
    assert_eq!("a.typ".into_file_id(), FileId::new(None, VirtualPath::new("/a.typ")));
    assert_eq!(
        (cetz(), "lib.typ").into_file_id(),
        FileId::new(Some(cetz()), VirtualPath::new("lib.typ"))
    );
    let id = FileId::new(Some(cetz()), VirtualPath::new("lib.typ"));
    assert_eq!(id.clone().into_file_id(), id);

    let detached = "text".into_source();
    assert_eq!(detached.id(), &FileId::new(None, VirtualPath::new("main.typ")));
    assert_eq!(detached.text(), "text");
    assert_eq!("text".to_string().into_source(), detached);
    assert_eq!(Source::detached("text".to_string()), detached);
    let named = ("a.typ", "text").into_source();
    assert_eq!(named.id(), &FileId::new(None, VirtualPath::new("a.typ")));
    assert_eq!(("a.typ", "text".to_string()).into_source(), named);
    assert_eq!((id.clone(), "text").into_source(), Source::new(id.clone(), "text".to_string()));
    assert_eq!((id.clone(), "text".to_string()).into_source().id(), &id);
    assert_eq!(named.clone().into_source(), named);

    assert_eq!(vec![1u8, 2].into_bytes(), vec![1u8, 2]);
    let slice: &[u8] = &[3, 4];
    assert_eq!(slice.into_bytes(), vec![3u8, 4]);
}

#[test]
fn file_system_resolver_finds_project_and_package_files() {
    let resolver = FileSystemResolver::new("/project".to_string());
    let local = FileId::new(None, VirtualPath::new("chapters/one.typ"));
    assert_eq!(resolver.locate(&local), Ok("/project/chapters/one.typ".to_string()));
    assert_eq!(
        resolver.locate(&FileId::new(None, VirtualPath::new("../secret"))),
        Err(FileError::NotFound("/project/".to_string()))
    );

    let in_package = FileId::new(Some(cetz()), VirtualPath::new("lib.typ"));
    assert_eq!(
        resolver.locate_with(&in_package, Some("/home/me/.local/share".to_string())),
        Ok("/home/me/.local/share/typst/packages/preview/cetz/0.3.2/lib.typ".to_string())
    );
    assert_eq!(
        resolver.locate_with(&in_package, None),
        Err(FileError::Other(Some("No data dir set!".to_string())))
    );

    let resolver = resolver.local_package_root("/packages".to_string());
    assert_eq!(resolver.locate(&in_package), Ok("/packages/preview/cetz/0.3.2/lib.typ".to_string()));
    assert_eq!(
        resolver.locate_with(&in_package, None),
        Ok("/packages/preview/cetz/0.3.2/lib.typ".to_string())
    );
    let resolver = resolver.with_local_package_root("/other".to_string());
    assert_eq!(resolver.locate(&in_package), Ok("/other/preview/cetz/0.3.2/lib.typ".to_string()));
    assert_eq!(resolver.locate(&local), Ok("/project/chapters/one.typ".to_string()));
}

#[test]
fn file_system_file_resolver_serves_project_files_only() {
    let resolver = FileSystemFileResolver::new("/project".to_string());
    assert_eq!(
        resolver.locate(&FileId::new(None, VirtualPath::new("a.typ"))),
        Ok("/project/a.typ".to_string())
    );
    assert_eq!(
        resolver.locate(&FileId::new(Some(cetz()), VirtualPath::new("a.typ"))),
        Err(FileError::NotFound("/a.typ".to_string()))
    );
    assert_eq!(
        resolver.locate(&FileId::new(None, VirtualPath::new("../a.typ"))),
        Err(FileError::AccessDenied)
    );
}

#[test]
fn into_cached_switches_on_the_caches_that_suit() {
    let cached = FileSystemResolver::new("/project".to_string()).into_cached();
    assert!(cached.in_memory_source_cache.is_some());
    assert!(cached.in_memory_binary_cache.is_some());
    let cached = PackageResolver::builder().with_in_memory_cache().build().into_cached();
    assert!(cached.in_memory_source_cache.is_some());
    assert!(cached.in_memory_binary_cache.is_none());
    let cached = PackageResolver::builder().with_file_system_cache().build().into_cached();
    assert!(cached.in_memory_source_cache.is_some());
    assert!(cached.in_memory_binary_cache.is_some());
}

#[test]
fn embedded_resolver_serves_the_flattened_tree() {
    let tree = EmbeddedDir {
        files: vec![file("README.md", b"top")],
        dirs: vec![EmbeddedDir {
            files: vec![],
            dirs: vec![EmbeddedDir {
                files: vec![],
                dirs: vec![EmbeddedDir {
                    files: vec![
                        file("preview/cetz/0.3.2/lib.typ", b"\xef\xbb\xbf#let cetz = 1"),
                        file("preview\\cetz\\0.3.2\\src\\draw.typ", b"#let draw = 2"),
                        file("preview/cetz/0.3.2/logo.png", &[0x89, 0x50, 0xff]),
                    ],
                    dirs: vec![],
                }],
            }],
        }],
    };
    let mut resolver = EmbeddedPackageResolver::new(&tree);
    let lib = FileId::new(Some(cetz()), VirtualPath::new("lib.typ"));
    assert_eq!(resolver.file_path(&lib), "preview/cetz/0.3.2/lib.typ");
    assert_eq!(
        resolver.file_path(&FileId::new(None, VirtualPath::new("/README.md"))),
        "README.md"
    );
    assert_eq!(resolver.resolve_binary(&lib), Ok(b"\xef\xbb\xbf#let cetz = 1".to_vec()));
    assert_eq!(resolver.resolve_source(&lib).unwrap().text(), "#let cetz = 1");
    let draw = FileId::new(Some(cetz()), VirtualPath::new("src/draw.typ"));
    assert_eq!(resolver.resolve_source(&draw).unwrap().text(), "#let draw = 2");
    let logo = FileId::new(Some(cetz()), VirtualPath::new("logo.png"));
    assert_eq!(resolver.resolve_binary(&logo), Ok(vec![0x89, 0x50, 0xff]));
    assert_eq!(resolver.resolve_source(&logo), Err(FileError::InvalidUtf8));
    let readme = FileId::new(None, VirtualPath::new("README.md"));
    assert_eq!(resolver.resolve_binary(&readme), Ok(b"top".to_vec()));
    let missing = FileId::new(Some(cetz()), VirtualPath::new("missing.typ"));
    assert_eq!(
        resolver.resolve_binary(&missing),
        Err(FileError::NotFound("/missing.typ".to_string()))
    );
    assert_eq!(
        resolver.resolve_source(&missing),
        Err(FileError::NotFound("/missing.typ".to_string()))
    );
}

#[test]
fn font_options_default_to_everything_and_are_changed_field_by_field() {
    let options = TypstKitFontOptions::new();
    assert!(options.include_system_fonts);
    assert!(options.include_embedded_fonts);
    assert!(options.include_dirs.is_empty());
    let options = options
        .include_system_fonts(false)
        .include_dirs(vec!["fonts".to_string()])
        .include_embedded_fonts(false);
    assert!(!options.include_system_fonts);
    assert!(!options.include_embedded_fonts);
    assert_eq!(options.include_dirs, vec!["fonts".to_string()]);
    assert!(TypstKitFontOptions::default().include_system_fonts);

    let options = FontSearcherOptions::new();
    assert!(options.include_system_fonts && options.include_embedded_fonts);
    assert!(options.include_dirs.is_empty());
    let options = options.include_system_fonts(false).include_dirs(["a", "b"]);
    assert!(!options.include_system_fonts);
    assert!(options.include_embedded_fonts);
    assert_eq!(options.include_dirs, ["a", "b"]);
    let options = options.include_embedded_fonts(false);
    assert!(!options.include_embedded_fonts);
    assert!(FontSearcherOptions::default().include_dirs.is_empty());
}
