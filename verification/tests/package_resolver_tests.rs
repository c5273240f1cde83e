use typst_as_lib::error::{FileError, PackageError};
use typst_as_lib::ident::{FileId, PackageSpec, VirtualPath};
use typst_as_lib::package_resolver::{
    archive_url, fetched, Action, Event, FileSystemCache, HttpOutcome, InMemoryCache,
    PackageResolver, PackageResolverBuilder, ResolveState,
};
use typst_as_lib::util::{Content, ContentKind};

use std::io::Write;

fn example() -> PackageSpec {
    PackageSpec::new("preview", "example", "1.0.0")
}

fn example_file(path: &str) -> FileId {
    FileId::new(Some(example()), VirtualPath::new(path))
}

/// A tar archive with the given members.
fn tar_of(members: &[(&str, &[u8])]) -> Vec<u8> {
    let mut builder = binstall_tar::Builder::new(Vec::new());
    for (path, data) in members {
        let mut header = binstall_tar::Header::new_gnu();
        header.set_size(data.len() as u64);
        header.set_mode(0o644);
        header.set_cksum();
        builder.append_data(&mut header, path, *data).unwrap();
    }
    builder.into_inner().unwrap()
}

fn gzip_of(bytes: &[u8]) -> Vec<u8> {
    let mut encoder = flate2::write::GzEncoder::new(Vec::new(), flate2::Compression::default());
    encoder.write_all(bytes).unwrap();
    encoder.finish().unwrap()
}

fn example_archive() -> Vec<u8> {
    gzip_of(&tar_of(&[
        ("typst.toml", b"[package]\nname = \"example\"\n"),
        ("lib.typ", b"#let answer = 42\n"),
        ("src/util.typ", b"#let util = 1\n"),
    ]))
}

fn ok_response(body: Vec<u8>) -> HttpOutcome {
    HttpOutcome::Answered { status: 200, status_text: "200 OK".to_string(), body }
}

fn in_memory(retries: u32) -> PackageResolver<InMemoryCache> {
    PackageResolver::builder().with_in_memory_cache().request_retry_count(retries).build()
}

fn returned(action: Action) -> Result<Content, FileError> {
    match action {
        Action::Return(result) => result,
        other => panic!("the resolution should have ended, not asked for {:?}", other),
    }
}

#[test]
fn archive_address_follows_the_registry_layout() {
    assert_eq!(
        archive_url(&example()),
        "https://packages.typst.org/preview/example-1.0.0.tar.gz"
    );
}

#[test]
fn builder_defaults_to_three_requests() {
    let resolver = PackageResolver::builder().with_in_memory_cache().build();
    assert_eq!(resolver.request_retry_count, 3);
    let resolver = PackageResolverBuilder::new().request_retry_count(7).cache(5u8).build();
    assert_eq!(resolver.request_retry_count, 7);
    assert_eq!(resolver.cache, 5u8);
    let resolver = PackageResolverBuilder::builder().with_file_system_cache().build();
    assert!(resolver.cache.0.ends_with("packages"));
    assert!(resolver.cache.0.contains("typst"));
}

#[test]
fn round_trip_package_fetch() {
    let mut resolver = in_memory(3);
    let id = example_file("lib.typ");

    let (state, action) = resolver.begin(&id, ContentKind::Binary);
    assert_eq!(state, ResolveState::Fetching { failed: 0 });
    match action {
        Action::Get(url) => {
            assert_eq!(url, "https://packages.typst.org/preview/example-1.0.0.tar.gz")
        }
        other => panic!("expected a request, got {:?}", other),
    }

    let (state, action) = resolver.respond(&id, ContentKind::Binary, 0, ok_response(example_archive()));
    assert_eq!(state, ResolveState::Done);
    assert_eq!(returned(action), Ok(Content::Binary(b"#let answer = 42\n".to_vec())));

    // The package is cached now: no request for any of its files.
    let (state, action) = resolver.begin(&example_file("src/util.typ"), ContentKind::Source);
    assert_eq!(state, ResolveState::Done);
    match returned(action) {
        Ok(Content::Source(source)) => {
            assert_eq!(source.text(), "#let util = 1\n");
            assert_eq!(source.id(), &example_file("/src/util.typ"));
        }
        other => panic!("expected a source, got {:?}", other),
    }
}

#[test]
fn path_missing_from_the_archive_is_not_found_without_a_second_request() {
    let mut resolver = in_memory(3);
    let id = example_file("missing.typ");
    let (state, _) = resolver.begin(&id, ContentKind::Binary);
    assert_eq!(state, ResolveState::Fetching { failed: 0 });
    let (state, action) = resolver.respond(&id, ContentKind::Binary, 0, ok_response(example_archive()));
    assert_eq!(state, ResolveState::Done);
    assert_eq!(returned(action), Err(FileError::NotFound("/missing.typ".to_string())));
}

#[test]
fn ids_outside_the_registry_are_not_found() {
    let resolver = in_memory(3);
    let local = FileId::new(None, VirtualPath::new("lib.typ"));
    let (state, action) = resolver.begin(&local, ContentKind::Binary);
    assert_eq!(state, ResolveState::Done);
    assert_eq!(returned(action), Err(FileError::NotFound("/lib.typ".to_string())));

    let other = FileId::new(
        Some(PackageSpec::new("local", "example", "1.0.0")),
        VirtualPath::new("lib.typ"),
    );
    let (state, action) = resolver.step(&other, ResolveState::Start, Event::Begin);
    assert_eq!(state, ResolveState::Done);
    assert_eq!(returned(action), Err(FileError::NotFound("/lib.typ".to_string())));
}

#[test]
fn failed_requests_are_retried_up_to_the_retry_count() {
    let mut resolver = in_memory(3);
    let id = example_file("lib.typ");
    let failure = |n: u32| HttpOutcome::Failed { message: format!("timeout {}", n) };

    let (state, action) = resolver.respond(&id, ContentKind::Binary, 0, failure(1));
    assert_eq!(state, ResolveState::Fetching { failed: 1 });
    assert!(matches!(action, Action::Get(_)));
    let (state, action) = resolver.respond(&id, ContentKind::Binary, 1, failure(2));
    assert_eq!(state, ResolveState::Fetching { failed: 2 });
    assert!(matches!(action, Action::Get(_)));
    let (state, action) = resolver.respond(&id, ContentKind::Binary, 2, failure(3));
    assert_eq!(state, ResolveState::Done);
    assert_eq!(
        returned(action),
        Err(FileError::Package(PackageError::NetworkFailed(Some("timeout 3".to_string()))))
    );
}

#[test]
fn unsuccessful_status_is_a_network_failure() {
    let mut resolver = in_memory(1);
    let id = example_file("lib.typ");
    let outcome = HttpOutcome::Answered {
        status: 404,
        status_text: "404 Not Found".to_string(),
        body: Vec::new(),
    };
    let (state, action) = resolver.respond(&id, ContentKind::Binary, 0, outcome);
    assert_eq!(state, ResolveState::Done);
    assert_eq!(
        returned(action),
        Err(FileError::Package(PackageError::NetworkFailed(Some(
            "response returned unsuccessful status code 404 Not Found".to_string()
        ))))
    );
    assert_eq!(
        fetched(HttpOutcome::Answered {
            status: 301,
            status_text: "301 Moved Permanently".to_string(),
            body: vec![1]
        }),
        Err("response returned unsuccessful status code 301 Moved Permanently".to_string())
    );
    assert_eq!(
        fetched(HttpOutcome::Answered {
            status: 199,
            status_text: "199".to_string(),
            body: Vec::new()
        }),
        Err("response returned unsuccessful status code 199".to_string())
    );
    assert_eq!(
        fetched(HttpOutcome::Answered {
            status: 299,
            status_text: "299".to_string(),
            body: vec![9]
        }),
        Ok(vec![9])
    );
    assert_eq!(fetched(ok_response(vec![1, 2])), Ok(vec![1, 2]));
    assert_eq!(
        fetched(HttpOutcome::Failed { message: "no route".to_string() }),
        Err("no route".to_string())
    );
}

#[test]
fn a_retry_count_of_zero_makes_no_request() {
    let resolver = in_memory(0);
    let (state, action) = resolver.begin(&example_file("lib.typ"), ContentKind::Binary);
    assert_eq!(state, ResolveState::Done);
    assert_eq!(returned(action), Err(FileError::Package(PackageError::Other(None))));
}

#[test]
fn a_body_that_is_no_gzip_stream_is_a_malformed_archive() {
    let mut resolver = in_memory(3);
    let id = example_file("lib.typ");
    let (state, action) =
        resolver.respond(&id, ContentKind::Binary, 0, ok_response(b"this is no archive".to_vec()));
    assert_eq!(state, ResolveState::Done);
    match returned(action) {
        Err(FileError::Package(PackageError::MalformedArchive(Some(message)))) => {
            assert!(!message.is_empty())
        }
        other => panic!("expected a malformed archive, got {:?}", other),
    }
    // Nothing was cached.
    assert!(!resolver.cache.0.contains_key(&id));
}

#[test]
fn cached_bytes_that_are_no_text_are_an_encoding_error_for_sources_only() {
    let mut resolver = in_memory(3);
    let archive = gzip_of(&tar_of(&[("logo.bin", &[0xff, 0xfe, 0x00])]));
    let id = example_file("logo.bin");
    let (_, action) = resolver.respond(&id, ContentKind::Source, 0, ok_response(archive));
    assert_eq!(returned(action), Err(FileError::InvalidUtf8));
    let (_, action) = resolver.begin(&id, ContentKind::Binary);
    assert_eq!(returned(action), Ok(Content::Binary(vec![0xff, 0xfe, 0x00])));
    // A cached file that does not decode is asked for again.
    let (state, action) = resolver.begin(&id, ContentKind::Source);
    assert_eq!(state, ResolveState::Fetching { failed: 0 });
    assert!(matches!(action, Action::Get(_)));
}

#[test]
fn step_walks_through_the_whole_resolution() {
    let resolver = PackageResolver::builder().cache(()).request_retry_count(2).build();
    let id = example_file("lib.typ");

    let (state, action) = resolver.step(&id, ResolveState::Start, Event::Begin);
    assert_eq!(state, ResolveState::FirstLookup);
    assert!(matches!(action, Action::Lookup));

    let (state, action) = resolver.step(&id, state, Event::Found(Ok(None)));
    assert_eq!(state, ResolveState::Fetching { failed: 0 });
    assert!(matches!(action, Action::Get(_)));

    let tar = tar_of(&[("lib.typ", b"x")]);
    let (state, action) = resolver.step(&id, state, Event::Response(ok_response(gzip_of(&tar))));
    assert_eq!(state, ResolveState::Storing);
    match action {
        Action::Store(archive) => assert_eq!(archive, tar),
        other => panic!("expected the archive, got {:?}", other),
    }

    let (state, action) = resolver.step(&id, state, Event::Stored(Ok(())));
    assert_eq!(state, ResolveState::SecondLookup);
    assert!(matches!(action, Action::Lookup));

    let (state, action) =
        resolver.step(&id, state, Event::Found(Ok(Some(Content::Binary(vec![b'x'])))));
    assert_eq!(state, ResolveState::Done);
    assert_eq!(returned(action), Ok(Content::Binary(vec![b'x'])));
}

#[test]
fn step_passes_cache_errors_on() {
    let resolver = PackageResolver::builder().cache(()).build();
    let id = example_file("lib.typ");

    // An error at the first lookup counts as a miss.
    let (state, _) =
        resolver.step(&id, ResolveState::FirstLookup, Event::Found(Err(FileError::AccessDenied)));
    assert_eq!(state, ResolveState::Fetching { failed: 0 });

    let (state, action) =
        resolver.step(&id, ResolveState::Storing, Event::Stored(Err(FileError::AccessDenied)));
    assert_eq!(state, ResolveState::Done);
    assert_eq!(returned(action), Err(FileError::AccessDenied));

    let (state, action) = resolver.step(
        &id,
        ResolveState::SecondLookup,
        Event::Found(Err(FileError::NotFound("/cache/lib.typ".to_string()))),
    );
    assert_eq!(state, ResolveState::Done);
    assert_eq!(returned(action), Err(FileError::NotFound("/cache/lib.typ".to_string())));

    let (state, action) = resolver.step(&id, ResolveState::Start, Event::Stored(Ok(())));
    assert_eq!(state, ResolveState::Done);
    assert_eq!(
        returned(action),
        Err(FileError::Other(Some("unexpected event".to_string())))
    );
}

#[test]
fn in_memory_cache_keeps_the_last_entry_of_a_path() {
    let mut cache = InMemoryCache::new();
    let tar = tar_of(&[("a.typ", b"one"), ("./a.typ", b"two"), ("b.typ", b"three")]);
    assert_eq!(cache.cache_archive(&tar, &example()), Ok(()));
    assert_eq!(
        cache.lookup_cached(&example_file("a.typ"), ContentKind::Binary),
        Ok(Some(Content::Binary(b"two".to_vec())))
    );
    assert_eq!(
        cache.lookup_cached(&example_file("b.typ"), ContentKind::Binary),
        Ok(Some(Content::Binary(b"three".to_vec())))
    );
    assert_eq!(cache.lookup_cached(&example_file("c.typ"), ContentKind::Binary), Ok(None));
    // The same path in another package is another file.
    let other = FileId::new(
        Some(PackageSpec::new("preview", "example", "1.0.1")),
        VirtualPath::new("a.typ"),
    );
    assert_eq!(cache.lookup_cached(&other, ContentKind::Binary), Ok(None));
}

#[test]
fn file_system_cache_lays_packages_out_by_namespace_name_version() {
    let cache = FileSystemCache::under(Some("/var/cache".to_string()));
    assert_eq!(cache.0, "/var/cache/typst/packages");
    assert_eq!(
        cache.package_dir(&example()),
        "/var/cache/typst/packages/preview/example/1.0.0"
    );
    assert_eq!(
        cache.file_path(&example(), &example_file("src/util.typ")),
        Some("/var/cache/typst/packages/preview/example/1.0.0/src/util.typ".to_string())
    );
    assert_eq!(cache.file_path(&example(), &example_file("../../x")), None);
    assert_eq!(FileSystemCache::under(None).0, "./typst/packages");
    assert!(FileSystemCache::new().0.ends_with("typst/packages"));
}
