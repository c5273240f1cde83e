use typst_as_lib::cached_file_resolver::CachedFileResolver;
use typst_as_lib::error::FileError;
use typst_as_lib::file_resolver::{
    FileResolver, MainSourceFileResolver, ResolverChain, StaticFileResolver,
    StaticSourceFileResolver,
};
use typst_as_lib::ident::{FileId, VirtualPath};
use typst_as_lib::table::Table;
use typst_as_lib::util::Source;

use std::sync::atomic::{AtomicU32, Ordering};
use std::sync::Arc;

/// Always fails with the given error.
struct Failing(FileError);

impl FileResolver for Failing {
    fn resolve_binary(&mut self, _id: &FileId) -> Result<Vec<u8>, FileError> {
        Err(self.0.clone())
    }

    fn resolve_source(&mut self, _id: &FileId) -> Result<Source, FileError> {
        Err(self.0.clone())
    }
}

/// Always succeeds with the given bytes, and counts how often it is asked.
struct Counting {
    bytes: Vec<u8>,
    binary_calls: Arc<AtomicU32>,
    source_calls: Arc<AtomicU32>,
}

impl FileResolver for Counting {
    fn resolve_binary(&mut self, _id: &FileId) -> Result<Vec<u8>, FileError> {
        self.binary_calls.fetch_add(1, Ordering::SeqCst);
        Ok(self.bytes.clone())
    }

    fn resolve_source(&mut self, id: &FileId) -> Result<Source, FileError> {
        self.source_calls.fetch_add(1, Ordering::SeqCst);
        Ok(Source::new(id.clone(), String::from_utf8(self.bytes.clone()).unwrap()))
    }
}

fn counting(bytes: &[u8]) -> (Counting, Arc<AtomicU32>, Arc<AtomicU32>) {
    let binary_calls = Arc::new(AtomicU32::new(0));
    let source_calls = Arc::new(AtomicU32::new(0));
    let resolver = Counting {
        bytes: bytes.to_vec(),
        binary_calls: binary_calls.clone(),
        source_calls: source_calls.clone(),
    };
    (resolver, binary_calls, source_calls)
}

fn project_file(path: &str) -> FileId {
    FileId::new(None, VirtualPath::new(path))
}

#[test]
fn chain_first_success_wins_behind_a_failure() {
    let id = project_file("a.bin");
    let (always, _, _) = counting(b"value");
    let mut chain = ResolverChain::new();
    chain.add_file_resolver(Box::new(Failing(FileError::NotFound("/a.bin".to_string()))));
    chain.add_file_resolver(Box::new(always));
    assert_eq!(chain.resolve_binary(&id), Ok(b"value".to_vec()));
    assert_eq!(chain.resolve_source(&id).unwrap().text(), "value");
}

#[test]
fn chain_first_success_wins_before_a_failure() {
    let id = project_file("a.bin");
    let (always, binary_calls, _) = counting(b"value");
    let mut chain = ResolverChain::new();
    chain.add_file_resolver(Box::new(always));
    chain.add_file_resolver(Box::new(Failing(FileError::AccessDenied)));
    assert_eq!(chain.resolve_binary(&id), Ok(b"value".to_vec()));
    assert_eq!(binary_calls.load(Ordering::SeqCst), 1);
    assert_eq!(chain.len(), 2);
}

#[test]
fn chain_success_short_circuits() {
    let id = project_file("a.bin");
    let (first, first_calls, _) = counting(b"one");
    let (second, second_calls, _) = counting(b"two");
    let mut chain = ResolverChain::new();
    chain.add_file_resolver(Box::new(first));
    chain.add_file_resolver(Box::new(second));
    assert_eq!(chain.resolve_binary(&id), Ok(b"one".to_vec()));
    assert_eq!(first_calls.load(Ordering::SeqCst), 1);
    assert_eq!(second_calls.load(Ordering::SeqCst), 0);
}

#[test]
fn chain_reports_the_last_error() {
    let id = project_file("a.bin");
    let mut chain = ResolverChain::new();
    chain.add_file_resolver(Box::new(Failing(FileError::AccessDenied)));
    chain.add_file_resolver(Box::new(Failing(FileError::InvalidUtf8)));
    assert_eq!(chain.resolve_binary(&id), Err(FileError::InvalidUtf8));
    assert_eq!(chain.resolve_source(&id), Err(FileError::InvalidUtf8));
}

#[test]
fn empty_chain_is_not_found() {
    let id = project_file("dir/a.bin");
    let mut chain = ResolverChain::new();
    assert_eq!(
        chain.resolve_binary(&id),
        Err(FileError::NotFound("/dir/a.bin".to_string()))
    );
    assert_eq!(
        chain.resolve_source(&id),
        Err(FileError::NotFound("/dir/a.bin".to_string()))
    );
}

#[test]
fn cache_asks_the_inner_resolver_once() {
    let id = project_file("a.typ");
    let (inner, binary_calls, source_calls) = counting(b"text");
    let mut cached = CachedFileResolver::new(inner)
        .with_in_memory_source_cache()
        .with_in_memory_binary_cache();
    let first = cached.resolve_binary(&id);
    let second = cached.resolve_binary(&id);
    assert_eq!(first, Ok(b"text".to_vec()));
    assert_eq!(first, second);
    assert_eq!(binary_calls.load(Ordering::SeqCst), 1);
    let first = cached.resolve_source(&id);
    let second = cached.resolve_source(&id);
    assert_eq!(first, second);
    assert_eq!(first.unwrap().text(), "text");
    assert_eq!(source_calls.load(Ordering::SeqCst), 1);
}

#[test]
fn caches_are_independent() {
    let id = project_file("a.typ");
    let (inner, binary_calls, source_calls) = counting(b"text");
    let mut cached = CachedFileResolver::new(inner).with_in_memory_source_cache();
    for _ in 0..3 {
        assert_eq!(cached.resolve_binary(&id), Ok(b"text".to_vec()));
        assert_eq!(cached.resolve_source(&id).unwrap().text(), "text");
    }
    assert_eq!(binary_calls.load(Ordering::SeqCst), 3);
    assert_eq!(source_calls.load(Ordering::SeqCst), 1);
    assert!(cached.in_memory_binary_cache().is_none());
    assert!(cached.in_memory_source_cache().is_some());
}

#[test]
fn cache_does_not_keep_failures() {
    let id = project_file("a.typ");
    let mut cached = CachedFileResolver::new(Failing(FileError::AccessDenied))
        .with_in_memory_binary_cache();
    assert_eq!(cached.resolve_binary(&id), Err(FileError::AccessDenied));
    assert_eq!(cached.resolve_binary(&id), Err(FileError::AccessDenied));
    let cache = cached.in_memory_binary_cache().as_ref().unwrap();
    assert!(!cache.contains_key(&id));
}

#[test]
fn uncached_decorator_is_transparent() {
    let id = project_file("a.typ");
    let (inner, binary_calls, _) = counting(b"text");
    let mut cached = CachedFileResolver::new(inner);
    assert_eq!(cached.resolve_binary(&id), Ok(b"text".to_vec()));
    assert_eq!(cached.resolve_binary(&id), Ok(b"text".to_vec()));
    assert_eq!(binary_calls.load(Ordering::SeqCst), 2);
}

#[test]
fn main_source_resolver_serves_its_file_only() {
    let main = Source::new(project_file("main.typ"), "= Title".to_string());
    let mut resolver = MainSourceFileResolver::new(main.clone());
    assert_eq!(resolver.resolve_source(&project_file("main.typ")), Ok(main));
    assert_eq!(
        resolver.resolve_source(&project_file("other.typ")),
        Err(FileError::NotFound("/other.typ".to_string()))
    );
    assert_eq!(
        resolver.resolve_binary(&project_file("main.typ")),
        Err(FileError::NotFound("/main.typ".to_string()))
    );
}

#[test]
fn static_resolvers_serve_one_kind_each() {
    let mut sources = StaticSourceFileResolver::new(vec![
        ("a.typ", "first"),
        ("b.typ", "second"),
        ("a.typ", "third"),
    ]);
    assert_eq!(sources.resolve_source(&project_file("a.typ")).unwrap().text(), "third");
    assert_eq!(sources.resolve_source(&project_file("/b.typ")).unwrap().text(), "second");
    assert_eq!(
        sources.resolve_binary(&project_file("a.typ")),
        Err(FileError::NotFound("/a.typ".to_string()))
    );
    assert_eq!(
        sources.resolve_source(&project_file("c.typ")),
        Err(FileError::NotFound("/c.typ".to_string()))
    );

    let mut binaries = StaticFileResolver::new(vec![("img.png", vec![1u8, 2, 3])]);
    assert_eq!(binaries.resolve_binary(&project_file("img.png")), Ok(vec![1, 2, 3]));
    assert_eq!(
        binaries.resolve_source(&project_file("img.png")),
        Err(FileError::NotFound("/img.png".to_string()))
    );
    assert_eq!(
        binaries.resolve_binary(&project_file("other.png")),
        Err(FileError::NotFound("/other.png".to_string()))
    );
}

#[test]
fn caches_can_be_handed_in() {
    let id = project_file("a.typ");
    let mut sources = Table::new();
    sources.insert(id.clone(), Source::new(id.clone(), "kept".to_string()));
    let mut binaries = Table::new();
    binaries.insert(id.clone(), vec![7u8]);
    let mut cached = CachedFileResolver::new(Failing(FileError::AccessDenied));
    cached.set_in_memory_source_cache(sources).set_in_memory_binary_cache(binaries);
    assert_eq!(cached.resolve_source(&id).unwrap().text(), "kept");
    assert_eq!(cached.resolve_binary(&id), Ok(vec![7u8]));
    assert_eq!(cached.resolve_binary(&project_file("b.typ")), Err(FileError::AccessDenied));
}
