//! A decorator that keeps what a resolver has answered, so that the same
//! file is asked for only once.
//!
//! The cache for source text and the cache for binary data are switched on
//! independently of each other. A cache is an optimisation only: with both
//! switched off the decorator answers exactly as the resolver it wraps.

use crate::error::{FileError, FileErrorView};
use crate::file_resolver::FileResolver;
use crate::file_system_resolver::FileSystemResolver;
use crate::ident::{FileId, FileIdView};
use crate::package_resolver::{FileSystemCache, InMemoryCache, PackageResolver};
use crate::table::Table;
use crate::util::{binary_result_view, source_result_view, Source, SourceView};
use vstd::prelude::*;

verus! {

/// A resolver with optional caches in front of it.
#[derive(Debug)]
pub struct CachedFileResolver<T> {
    /// The resolver that is asked on a cache miss.
    pub file_resolver: T,
    /// The cache of source files, if it is switched on.
    pub in_memory_source_cache: Option<Table<FileId, Source>>,
    /// The cache of binary files, if it is switched on.
    pub in_memory_binary_cache: Option<Table<FileId, Vec<u8>>>,
}

impl<T> CachedFileResolver<T> {
    /// What the source cache holds, if it is switched on.
    pub open spec fn source_cache(&self) -> Option<Map<FileIdView, SourceView>> {
        match self.in_memory_source_cache {
            Some(cache) => Some(cache@),
            None => None,
        }
    }

    /// What the binary cache holds, if it is switched on.
    pub open spec fn binary_cache(&self) -> Option<Map<FileIdView, Seq<u8>>> {
        match self.in_memory_binary_cache {
            Some(cache) => Some(cache@),
            None => None,
        }
    }

    /// The decorator of `file_resolver` with both caches switched off.
    pub fn new(file_resolver: T) -> (r: Self)
        ensures
            r.file_resolver == file_resolver,
            r.source_cache() is None,
            r.binary_cache() is None,
    {
        CachedFileResolver {
            file_resolver,
            in_memory_source_cache: None,
            in_memory_binary_cache: None,
        }
    }

    /// Uses `in_memory_source_cache` as the cache of source files.
    pub fn set_in_memory_source_cache(
        &mut self,
        in_memory_source_cache: Table<FileId, Source>,
    ) -> (r: &mut Self)
        ensures
            r.source_cache() == Some(in_memory_source_cache@),
            r.binary_cache() == old(self).binary_cache(),
            r.file_resolver == old(self).file_resolver,
            *final(self) == *final(r),
    {
        self.in_memory_source_cache = Some(in_memory_source_cache);
        self
    }

    /// Switches the cache of source files on, starting with an empty one.
    pub fn with_in_memory_source_cache(self) -> (r: Self)
        ensures
            r.source_cache() == Some(Map::<FileIdView, SourceView>::empty()),
            r.binary_cache() == self.binary_cache(),
            r.file_resolver == self.file_resolver,
    {
        CachedFileResolver {
            file_resolver: self.file_resolver,
            in_memory_source_cache: Some(Table::new()),
            in_memory_binary_cache: self.in_memory_binary_cache,
        }
    }

    /// The cache of source files, if it is switched on.
    pub fn in_memory_source_cache(&self) -> (r: &Option<Table<FileId, Source>>)
        ensures
            *r == self.in_memory_source_cache,
    {
        &self.in_memory_source_cache
    }

    /// Uses `in_memory_binary_cache` as the cache of binary files.
    pub fn set_in_memory_binary_cache(
        &mut self,
        in_memory_binary_cache: Table<FileId, Vec<u8>>,
    ) -> (r: &mut Self)
        ensures
            r.binary_cache() == Some(in_memory_binary_cache@),
            r.source_cache() == old(self).source_cache(),
            r.file_resolver == old(self).file_resolver,
            *final(self) == *final(r),
    {
        self.in_memory_binary_cache = Some(in_memory_binary_cache);
        self
    }

    /// Switches the cache of binary files on, starting with an empty one.
    pub fn with_in_memory_binary_cache(self) -> (r: Self)
        ensures
            r.binary_cache() == Some(Map::<FileIdView, Seq<u8>>::empty()),
            r.source_cache() == self.source_cache(),
            r.file_resolver == self.file_resolver,
    {
        CachedFileResolver {
            file_resolver: self.file_resolver,
            in_memory_source_cache: self.in_memory_source_cache,
            in_memory_binary_cache: Some(Table::new()),
        }
    }

    /// The cache of binary files, if it is switched on.
    pub fn in_memory_binary_cache(&self) -> (r: &Option<Table<FileId, Vec<u8>>>)
        ensures
            *r == self.in_memory_binary_cache,
    {
        &self.in_memory_binary_cache
    }
}

impl<T: FileResolver> CachedFileResolver<T> {
    /// Whether a resolution of the binary data of `id` that answers `answer`
    /// may lead from `self` to `after`.
    ///
    /// On a hit the cached bytes are the answer and nothing changes: the
    /// wrapped resolver is not asked. Otherwise the answer is one of the
    /// wrapped resolver, and a success is added to the cache if that is
    /// switched on. The source cache is never touched.
    pub open spec fn binary_step(
        &self,
        id: FileIdView,
        answer: Result<Seq<u8>, FileErrorView>,
        after: &Self,
    ) -> bool {
        &&& after.source_cache() == self.source_cache()
        &&& match self.binary_cache() {
            Some(cache) => if cache.contains_key(id) {
                &&& answer == Ok::<Seq<u8>, FileErrorView>(cache[id])
                &&& after.file_resolver == self.file_resolver
                &&& after.binary_cache() == Some(cache)
            } else {
                &&& self.file_resolver.answers_binary(id, answer)
                &&& after.binary_cache() == Some(
                    match answer {
                        Ok(bytes) => cache.insert(id, bytes),
                        Err(_) => cache,
                    },
                )
            },
            None => {
                &&& self.file_resolver.answers_binary(id, answer)
                &&& after.binary_cache() is None
            },
        }
    }

    /// Whether a resolution of the source text of `id` that answers `answer`
    /// may lead from `self` to `after`; see [`Self::binary_step`].
    pub open spec fn source_step(
        &self,
        id: FileIdView,
        answer: Result<SourceView, FileErrorView>,
        after: &Self,
    ) -> bool {
        &&& after.binary_cache() == self.binary_cache()
        &&& match self.source_cache() {
            Some(cache) => if cache.contains_key(id) {
                &&& answer == Ok::<SourceView, FileErrorView>(cache[id])
                &&& after.file_resolver == self.file_resolver
                &&& after.source_cache() == Some(cache)
            } else {
                &&& self.file_resolver.answers_source(id, answer)
                &&& after.source_cache() == Some(
                    match answer {
                        Ok(source) => cache.insert(id, source),
                        Err(_) => cache,
                    },
                )
            },
            None => {
                &&& self.file_resolver.answers_source(id, answer)
                &&& after.source_cache() is None
            },
        }
    }
}

impl<T: FileResolver> FileResolver for CachedFileResolver<T> {
    open spec fn answers_binary(
        &self,
        id: FileIdView,
        answer: Result<Seq<u8>, FileErrorView>,
    ) -> bool {
        match self.binary_cache() {
            Some(cache) => if cache.contains_key(id) {
                answer == Ok::<Seq<u8>, FileErrorView>(cache[id])
            } else {
                self.file_resolver.answers_binary(id, answer)
            },
            None => self.file_resolver.answers_binary(id, answer),
        }
    }

    open spec fn answers_source(
        &self,
        id: FileIdView,
        answer: Result<SourceView, FileErrorView>,
    ) -> bool {
        match self.source_cache() {
            Some(cache) => if cache.contains_key(id) {
                answer == Ok::<SourceView, FileErrorView>(cache[id])
            } else {
                self.file_resolver.answers_source(id, answer)
            },
            None => self.file_resolver.answers_source(id, answer),
        }
    }

    fn resolve_binary(&mut self, id: &FileId) -> (r: Result<Vec<u8>, FileError>)
        ensures
            old(self).binary_step(id@, binary_result_view(r), final(self)),
    {
        if let Some(cache) = &self.in_memory_binary_cache {
            if let Some(cached) = cache.get(id) {
                return Ok(cached.clone());
            }
        }
        let resolved = self.file_resolver.resolve_binary(id)?;
        if let Some(cache) = &mut self.in_memory_binary_cache {
            cache.insert(id.clone(), resolved.clone());
        }
        Ok(resolved)
    }

    fn resolve_source(&mut self, id: &FileId) -> (r: Result<Source, FileError>)
        ensures
            old(self).source_step(id@, source_result_view(r), final(self)),
    {
        if let Some(cache) = &self.in_memory_source_cache {
            if let Some(cached) = cache.get(id) {
                return Ok(cached.clone());
            }
        }
        let resolved = self.file_resolver.resolve_source(id)?;
        if let Some(cache) = &mut self.in_memory_source_cache {
            cache.insert(id.clone(), resolved.clone());
        }
        Ok(resolved)
    }
}

/// Cache transparency, for binary data: once a resolution through a
/// switched-on cache has succeeded, the next resolution of the same id gives
/// the same bytes and leaves the wrapped resolver as it was.
pub proof fn lemma_cached_binary_is_repeated<T: FileResolver>(
    first: CachedFileResolver<T>,
    second: CachedFileResolver<T>,
    third: CachedFileResolver<T>,
    id: FileIdView,
    one: Result<Seq<u8>, FileErrorView>,
    two: Result<Seq<u8>, FileErrorView>,
)
    requires
        first.binary_cache() is Some,
        first.binary_step(id, one, &second),
        one is Ok,
        second.binary_step(id, two, &third),
    ensures
        two == one,
        third.file_resolver == second.file_resolver,
        third.binary_cache() == second.binary_cache(),
{
}

/// Cache transparency, for source text; see [`lemma_cached_binary_is_repeated`].
pub proof fn lemma_cached_source_is_repeated<T: FileResolver>(
    first: CachedFileResolver<T>,
    second: CachedFileResolver<T>,
    third: CachedFileResolver<T>,
    id: FileIdView,
    one: Result<SourceView, FileErrorView>,
    two: Result<SourceView, FileErrorView>,
)
    requires
        first.source_cache() is Some,
        first.source_step(id, one, &second),
        one is Ok,
        second.source_step(id, two, &third),
    ensures
        two == one,
        third.file_resolver == second.file_resolver,
        third.source_cache() == second.source_cache(),
{
}

/// Cache independence: a resolution of one kind leaves the cache of the other
/// kind as it was, and with the cache of its own kind switched off it is
/// answered by the wrapped resolver, and the cache stays off: so every such
/// resolution reaches the wrapped resolver.
pub proof fn lemma_caches_are_independent<T: FileResolver>(
    before: CachedFileResolver<T>,
    after: CachedFileResolver<T>,
    id: FileIdView,
    binary: Result<Seq<u8>, FileErrorView>,
    source: Result<SourceView, FileErrorView>,
)
    ensures
        before.binary_step(id, binary, &after) ==> after.source_cache() == before.source_cache(),
        before.source_step(id, source, &after) ==> after.binary_cache() == before.binary_cache(),
        before.binary_cache() is None && before.binary_step(id, binary, &after)
            ==> before.file_resolver.answers_binary(id, binary) && after.binary_cache() is None,
        before.source_cache() is None && before.source_step(id, source, &after)
            ==> before.file_resolver.answers_source(id, source) && after.source_cache() is None,
{
}

/// What can be wrapped into a [`CachedFileResolver`] with the caches that suit it.
pub trait IntoCachedFileResolver: Sized {
    /// Whether the source cache is switched on by [`Self::into_cached`].
    spec fn caches_sources() -> bool;

    /// Whether the binary cache is switched on by [`Self::into_cached`].
    spec fn caches_binaries() -> bool;

    /// The decorator of `self`, with empty caches of the kinds that suit it.
    fn into_cached(self) -> (r: CachedFileResolver<Self>)
        ensures
            r.file_resolver == self,
            r.source_cache() == if Self::caches_sources() {
                Some(Map::<FileIdView, SourceView>::empty())
            } else {
                None
            },
            r.binary_cache() == if Self::caches_binaries() {
                Some(Map::<FileIdView, Seq<u8>>::empty())
            } else {
                None
            },
    ;
}

/// Files on disk are cached in both kinds.
impl IntoCachedFileResolver for FileSystemResolver {
    open spec fn caches_sources() -> bool {
        true
    }

    open spec fn caches_binaries() -> bool {
        true
    }

    fn into_cached(self) -> (r: CachedFileResolver<Self>) {
        CachedFileResolver::new(self).with_in_memory_source_cache().with_in_memory_binary_cache()
    }
}

/// A package cache in memory holds the bytes already: only sources are cached again.
impl IntoCachedFileResolver for PackageResolver<InMemoryCache> {
    open spec fn caches_sources() -> bool {
        true
    }

    open spec fn caches_binaries() -> bool {
        false
    }

    fn into_cached(self) -> (r: CachedFileResolver<Self>) {
        CachedFileResolver::new(self).with_in_memory_source_cache()
    }
}

/// Package files on disk are cached in both kinds.
impl IntoCachedFileResolver for PackageResolver<FileSystemCache> {
    open spec fn caches_sources() -> bool {
        true
    }

    open spec fn caches_binaries() -> bool {
        true
    }

    fn into_cached(self) -> (r: CachedFileResolver<Self>) {
        CachedFileResolver::new(self).with_in_memory_source_cache().with_in_memory_binary_cache()
    }
}

} // verus!
