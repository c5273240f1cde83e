//! Registry packages: the cache backends, and the decisions of a resolution
//! that fetches a package archive when the cache does not have it.
//!
//! The network and the disk are the caller's: [`PackageResolver::step`] says
//! what is to be done next, the caller does it and reports what came of it.

use crate::archive::{
    entry_views, gunzip, gzip_decoded, read_tar, tar_listing, ArchiveEntry, ArchiveEntryView,
};
use crate::error::{
    not_found, not_found_view, FileError, FileErrorView, PackageError, PackageErrorView,
};
use crate::file_system_resolver::{path_option_view, DEFAULT_PACKAGES_SUBDIR};
use crate::ident::{
    is_registry_namespace, vpath_normal_form, vpath_resolved, FileId, FileIdView, PackageSpec,
    PackageSpecView, VirtualPath,
};
use crate::paths::{join_path, os_cache_dir, package_dir, package_dir_spec, path_joined};
use crate::table::Table;
use crate::util::{try_create, try_create_spec, Content, ContentKind, ContentView};
use vstd::prelude::*;
use vstd::string::StringExecFns;

verus! {

/// The default Typst registry.
pub const PACKAGE_REPOSITORY_URL: &'static str = "https://packages.typst.org";

/// How many requests are made for one archive unless the builder says otherwise.
pub const REQUEST_RETRY_COUNT: u32 = 3;

/// The address of the archive of `package` in the registry:
/// `{registry}/{namespace}/{name}-{version}.tar.gz`.
pub open spec fn archive_url_spec(package: PackageSpecView) -> Seq<char> {
    PACKAGE_REPOSITORY_URL@ + "/"@ + package.namespace + "/"@ + package.name + "-"@
        + package.version + ".tar.gz"@
}

/// The address of the archive of `package` in the registry.
pub fn archive_url(package: &PackageSpec) -> (r: String)
    ensures
        r@ == archive_url_spec(package@),
{
    let mut url = String::from_str(PACKAGE_REPOSITORY_URL);
    url.append("/");
    url.append(package.namespace.as_str());
    url.append("/");
    url.append(package.name.as_str());
    url.append("-");
    url.append(package.version.as_str());
    url.append(".tar.gz");
    url
}

/// A cache of unpacked packages on disk, under the directory it holds.
#[derive(Debug)]
pub struct FileSystemCache(pub String);

/// The directory of the package cache, given the user's cache directory:
/// its packages subdirectory, or that of the current directory where the
/// user has none.
pub open spec fn default_cache_root(cache_dir: Option<Seq<char>>) -> Seq<char> {
    match cache_dir {
        Some(dir) => path_joined(dir, DEFAULT_PACKAGES_SUBDIR@),
        None => path_joined("."@, DEFAULT_PACKAGES_SUBDIR@),
    }
}

impl FileSystemCache {
    /// The cache under the packages subdirectory of the user's cache directory.
    pub fn new() -> (r: Self)
        ensures
            exists|cache_dir: Option<Seq<char>>| r.0@ == #[trigger] default_cache_root(cache_dir),
    {
        let cache_dir = os_cache_dir();
        let r = FileSystemCache::under(cache_dir);
        assert(r.0@ == default_cache_root(path_option_view(cache_dir)));
        r
    }

    /// The cache under the packages subdirectory of `cache_dir`, or of the
    /// current directory where `cache_dir` is `None`.
    pub fn under(cache_dir: Option<String>) -> (r: Self)
        ensures
            r.0@ == default_cache_root(path_option_view(cache_dir)),
    {
        match cache_dir {
            Some(dir) => FileSystemCache(join_path(dir.as_str(), DEFAULT_PACKAGES_SUBDIR)),
            None => FileSystemCache(join_path(".", DEFAULT_PACKAGES_SUBDIR)),
        }
    }

    /// The directory that holds the unpacked files of `package`:
    /// `namespace/name/version` under the cache's directory.
    pub fn package_dir(&self, package: &PackageSpec) -> (r: String)
        ensures
            r@ == package_dir_spec(self.0@, package@.namespace, package@.name, package@.version),
    {
        package_dir(self.0.as_str(), package)
    }

    /// The path at which the file `id` of `package` is cached, or `None` if
    /// its virtual path leaves the package's directory.
    pub fn file_path(&self, package: &PackageSpec, id: &FileId) -> (r: Option<String>)
        ensures
            path_option_view(r) == vpath_resolved(
                id@.vpath,
                package_dir_spec(self.0@, package@.namespace, package@.name, package@.version),
            ),
    {
        let dir = self.package_dir(package);
        id.vpath().resolve(dir.as_str())
    }
}

/// The cache that holds what the entries of an archive add to `cache`: each
/// entry that has a path and contents, under the id of that path in
/// `package`; a later entry in place of an earlier one with the same id.
pub open spec fn with_entries(
    cache: Map<FileIdView, Seq<u8>>,
    entries: Seq<ArchiveEntryView>,
    package: PackageSpecView,
) -> Map<FileIdView, Seq<u8>>
    decreases entries.len(),
{
    if entries.len() == 0 {
        cache
    } else {
        let before = with_entries(cache, entries.drop_last(), package);
        match (entries.last().path, entries.last().data) {
            (Some(path), Some(data)) => before.insert(
                FileIdView { package: Some(package), vpath: vpath_normal_form(path) },
                data,
            ),
            _ => before,
        }
    }
}

/// What looking up `id` as content of the given kind gives in `cache`.
pub open spec fn lookup_spec(
    cache: Map<FileIdView, Seq<u8>>,
    id: FileIdView,
    kind: ContentKind,
) -> Result<
    Option<ContentView>,
    FileErrorView,
> {
    if cache.contains_key(id) {
        match try_create_spec(kind, id, cache[id]) {
            Ok(content) => Ok(Some(content)),
            Err(e) => Err(e),
        }
    } else {
        Ok(None)
    }
}

/// The view of what a cache lookup gave.
pub open spec fn lookup_view(r: Result<Option<Content>, FileError>) -> Result<
    Option<ContentView>,
    FileErrorView,
> {
    match r {
        Ok(Some(content)) => Ok(Some(content@)),
        Ok(None) => Ok(None),
        Err(e) => Err(e@),
    }
}

/// A cache of package files in memory, by file id.
#[derive(Debug)]
pub struct InMemoryCache(pub Table<FileId, Vec<u8>>);

impl View for InMemoryCache {
    type V = Map<FileIdView, Seq<u8>>;

    open spec fn view(&self) -> Map<FileIdView, Seq<u8>> {
        self.0@
    }
}

impl InMemoryCache {
    /// An empty cache.
    pub fn new() -> (r: Self)
        ensures
            r@ == Map::<FileIdView, Seq<u8>>::empty(),
    {
        InMemoryCache(Table::new())
    }

    /// The cached file `id`, as content of the kind asked for; `None` if the
    /// cache does not have it.
    pub fn lookup_cached(&self, id: &FileId, kind: ContentKind) -> (r: Result<
        Option<Content>,
        FileError,
    >)
        ensures
            lookup_view(r) == lookup_spec(self@, id@, kind),
    {
        match self.0.get(id) {
            Some(value) => match try_create(kind, id.clone(), value.as_slice()) {
                Ok(content) => Ok(Some(content)),
                Err(e) => Err(e),
            },
            None => Ok(None),
        }
    }

    /// Adds the readable entries of an archive to the cache, each under the
    /// id of its path in `package`.
    pub fn store_entries(&mut self, entries: Vec<ArchiveEntry>, package: &PackageSpec)
        ensures
            final(self)@ == with_entries(old(self)@, entry_views(entries@), package@),
    {
        let ghost items = entries@;
        let ghost views = entry_views(items);
        for entry in it: entries
            invariant
                it.seq() == items,
                views == entry_views(items),
                self@ == with_entries(old(self)@, views.take(it.index() as int), package@),
        {
            let ghost n = it.index() as int;
            proof {
                assert(views.take(n + 1).drop_last() =~= views.take(n));
                assert(views.take(n + 1).last() == entry@);
            }
            let ArchiveEntry { path, data } = entry;
            match (path, data) {
                (Some(path), Some(data)) => {
                    let id = FileId::new(Some(package.clone()), VirtualPath::new(path.as_str()));
                    self.0.insert(id, data);
                },
                _ => {},
            }
        }
        assert(views.take(items.len() as int) =~= views);
    }

    /// What caching the tar archive `archive` for `package` makes of `cache`:
    /// the cache with the archive's entries, or a malformed-archive error.
    pub open spec fn cache_archive_spec(
        cache: Map<FileIdView, Seq<u8>>,
        archive: Seq<u8>,
        package: PackageSpecView,
    ) -> Result<Map<FileIdView, Seq<u8>>, FileErrorView> {
        match tar_listing(archive) {
            Ok(entries) => Ok(with_entries(cache, entries, package)),
            Err(message) => Err(
                FileErrorView::Package(PackageErrorView::MalformedArchive(Some(message))),
            ),
        }
    }

    /// Unpacks the tar archive `archive` into the cache, each file under the
    /// id of its path in `package`. An archive whose entries cannot be
    /// listed is malformed, and leaves the cache as it was.
    pub fn cache_archive(&mut self, archive: &[u8], package: &PackageSpec) -> (r: Result<
        (),
        FileError,
    >)
        ensures
            match r {
                Ok(()) => Self::cache_archive_spec(old(self)@, archive@, package@) == Ok::<
                    Map<FileIdView, Seq<u8>>,
                    FileErrorView,
                >(final(self)@),
                Err(e) => Self::cache_archive_spec(old(self)@, archive@, package@) == Err::<
                    Map<FileIdView, Seq<u8>>,
                    FileErrorView,
                >(e@) && final(self)@ == old(self)@,
            },
    {
        match read_tar(archive) {
            Ok(entries) => {
                self.store_entries(entries, package);
                Ok(())
            },
            Err(message) => Err(
                FileError::Package(PackageError::MalformedArchive(Some(message))),
            ),
        }
    }
}

/// What one request for an archive came to.
#[derive(Debug)]
pub enum HttpOutcome {
    /// The request could not be carried out; the message says why.
    Failed { message: String },
    /// The registry answered with this status; `status_text` is the status
    /// as it is shown in messages.
    Answered { status: u16, status_text: String, body: Vec<u8> },
}

/// The start of the message for an answer with an unsuccessful status.
pub const UNSUCCESSFUL_STATUS: &'static str = "response returned unsuccessful status code ";

/// The message with which a request failed, if it failed: an answer whose
/// status is not one of the successful ones, 200 to 299, is a failure.
pub open spec fn failure_of(outcome: HttpOutcome) -> Option<Seq<char>> {
    match outcome {
        HttpOutcome::Failed { message } => Some(message@),
        HttpOutcome::Answered { status, status_text, body } => if 200 <= status < 300 {
            None
        } else {
            Some(UNSUCCESSFUL_STATUS@ + status_text@)
        },
    }
}

/// The body of a request that succeeded.
pub open spec fn body_of(outcome: HttpOutcome) -> Seq<u8> {
    match outcome {
        HttpOutcome::Failed { message } => Seq::empty(),
        HttpOutcome::Answered { status, status_text, body } => body@,
    }
}

/// Tells a successful request, with its body, from a failed one, with its message.
pub fn fetched(outcome: HttpOutcome) -> (r: Result<Vec<u8>, String>)
    ensures
        match r {
            Ok(body) => failure_of(outcome) is None && body@ == body_of(outcome),
            Err(message) => failure_of(outcome) == Some(message@),
        },
{
    match outcome {
        HttpOutcome::Failed { message } => Err(message),
        HttpOutcome::Answered { status, status_text, body } => {
            if 200 <= status && status < 300 {
                Ok(body)
            } else {
                let mut message = String::from_str(UNSUCCESSFUL_STATUS);
                message.append(status_text.as_str());
                Err(message)
            }
        },
    }
}

/// Where a resolution stands.
#[derive(Debug, Clone, Copy, PartialEq, Eq)]
pub enum ResolveState {
    /// Nothing has been done yet.
    Start,
    /// The cache is being asked, before any request.
    FirstLookup,
    /// A request is under way; `failed` requests have failed before it.
    Fetching { failed: u32 },
    /// The archive is being unpacked into the cache.
    Storing,
    /// The cache is being asked again, after the archive was unpacked.
    SecondLookup,
    /// The resolution has ended.
    Done,
}

/// What the caller reports.
#[derive(Debug)]
pub enum Event {
    /// The resolution begins.
    Begin,
    /// What the cache gave for the file.
    Found(Result<Option<Content>, FileError>),
    /// What the request came to.
    Response(HttpOutcome),
    /// Whether the archive could be unpacked into the cache.
    Stored(Result<(), FileError>),
}

/// What the caller is to do next.
#[derive(Debug, PartialEq, Eq)]
pub enum Action {
    /// Ask the cache for the file, and report [`Event::Found`].
    Lookup,
    /// Request this address, and report [`Event::Response`].
    Get(String),
    /// Unpack this tar archive into the cache, and report [`Event::Stored`].
    Store(Vec<u8>),
    /// End the resolution with this result.
    Return(Result<Content, FileError>),
}

/// Whether `action` ends the resolution with the error `error`.
pub open spec fn fails_with(action: Action, error: FileErrorView) -> bool {
    action matches Action::Return(Err(e)) && e@ == error
}

/// Whether `action` ends the resolution with the content `content`.
pub open spec fn succeeds_with(action: Action, content: Content) -> bool {
    action matches Action::Return(Ok(c)) && c == content
}

/// Whether `action` asks for a request to the address `url`.
pub open spec fn requests(action: Action, url: Seq<char>) -> bool {
    action matches Action::Get(u) && u@ == url
}

/// Whether `action` asks to unpack the archive `archive`.
pub open spec fn stores(action: Action, archive: Seq<u8>) -> bool {
    action matches Action::Store(a) && a@ == archive
}

/// The package of `id`, if this resolver serves it: the id must name a
/// package of the registry's namespace.
pub open spec fn served_package(id: FileIdView) -> Option<PackageSpecView> {
    match id.package {
        Some(package) => if package.namespace == "preview"@ {
            Some(package)
        } else {
            None
        },
        None => None,
    }
}

/// The error of a resolver with a retry count of zero, which makes no request.
pub open spec fn no_request_error() -> FileErrorView {
    FileErrorView::Package(PackageErrorView::Other(None))
}

/// The error for an event that does not belong to the state it is reported in.
pub open spec fn unexpected_event_error() -> FileErrorView {
    FileErrorView::Other(Some("unexpected event"@))
}

/// What follows once the body of a successful request was decompressed:
/// the archive is to be unpacked, or the resolution ends with a
/// malformed-archive error that carries the decoder's message.
pub open spec fn decoded_allows(
    decoded: Result<Seq<u8>, Seq<char>>,
    next: ResolveState,
    action: Action,
) -> bool {
    match decoded {
        Ok(archive) => next == ResolveState::Storing && stores(action, archive),
        Err(message) => next == ResolveState::Done && fails_with(
            action,
            FileErrorView::Package(PackageErrorView::MalformedArchive(Some(message))),
        ),
    }
}

/// The transition relation of a resolution with `retry_count` requests at
/// most: whether, in `state` and on `event`, the resolution of `id` goes on
/// in the state `next` with the action `action`.
pub open spec fn step_allows(
    retry_count: u32,
    id: FileIdView,
    state: ResolveState,
    event: Event,
    next: ResolveState,
    action: Action,
) -> bool {
    match served_package(id) {
        None => next == ResolveState::Done && fails_with(action, not_found_view(id.vpath)),
        Some(package) => match (state, event) {
            (ResolveState::Start, Event::Begin) => next == ResolveState::FirstLookup && action
                == Action::Lookup,
            (ResolveState::FirstLookup, Event::Found(Ok(Some(content)))) => next
                == ResolveState::Done && succeeds_with(action, content),
            (ResolveState::FirstLookup, Event::Found(_)) => if retry_count == 0 {
                next == ResolveState::Done && fails_with(action, no_request_error())
            } else {
                next == (ResolveState::Fetching { failed: 0 }) && requests(
                    action,
                    archive_url_spec(package),
                )
            },
            (ResolveState::Fetching { failed }, Event::Response(outcome)) => match failure_of(
                outcome,
            ) {
                None => decoded_allows(gzip_decoded(body_of(outcome)), next, action),
                Some(message) => if failed + 1 < retry_count {
                    next == (ResolveState::Fetching { failed: (failed + 1) as u32 }) && requests(
                        action,
                        archive_url_spec(package),
                    )
                } else {
                    next == ResolveState::Done && fails_with(
                        action,
                        FileErrorView::Package(PackageErrorView::NetworkFailed(Some(message))),
                    )
                },
            },
            (ResolveState::Storing, Event::Stored(Ok(()))) => next == ResolveState::SecondLookup
                && action == Action::Lookup,
            (ResolveState::Storing, Event::Stored(Err(e))) => next == ResolveState::Done
                && fails_with(action, e@),
            (ResolveState::SecondLookup, Event::Found(Ok(Some(content)))) => next
                == ResolveState::Done && succeeds_with(action, content),
            (ResolveState::SecondLookup, Event::Found(Ok(None))) => next == ResolveState::Done
                && fails_with(action, not_found_view(id.vpath)),
            (ResolveState::SecondLookup, Event::Found(Err(e))) => next == ResolveState::Done
                && fails_with(action, e@),
            _ => next == ResolveState::Done && fails_with(action, unexpected_event_error()),
        },
    }
}

/// Builds a [`PackageResolver`].
#[derive(Debug)]
pub struct PackageResolverBuilder<C> {
    pub cache: C,
    pub request_retry_count: Option<u32>,
}

impl PackageResolverBuilder<()> {
    /// A builder without a cache, with the default retry count.
    pub fn new() -> (r: PackageResolverBuilder<()>)
        ensures
            r.request_retry_count is None,
    {
        PackageResolverBuilder { cache: (), request_retry_count: None }
    }

    /// A builder without a cache, with the default retry count.
    pub fn builder() -> (r: PackageResolverBuilder<()>)
        ensures
            r.request_retry_count is None,
    {
        PackageResolverBuilder { cache: (), request_retry_count: None }
    }
}

impl<C> PackageResolverBuilder<C> {
    /// Makes at most `request_retry_count` requests for one archive.
    pub fn request_retry_count(self, request_retry_count: u32) -> (r: Self)
        ensures
            r.request_retry_count == Some(request_retry_count),
            r.cache == self.cache,
    {
        PackageResolverBuilder { cache: self.cache, request_retry_count: Some(request_retry_count) }
    }

    /// Uses `cache` as the cache backend.
    pub fn cache<C1>(self, cache: C1) -> (r: PackageResolverBuilder<C1>)
        ensures
            r.cache == cache,
            r.request_retry_count == self.request_retry_count,
    {
        PackageResolverBuilder { cache, request_retry_count: self.request_retry_count }
    }

    /// Caches packages on disk, under the user's cache directory.
    pub fn with_file_system_cache(self) -> (r: PackageResolverBuilder<FileSystemCache>)
        ensures
            r.request_retry_count == self.request_retry_count,
            exists|cache_dir: Option<Seq<char>>|
                r.cache.0@ == #[trigger] default_cache_root(cache_dir),
    {
        PackageResolverBuilder {
            cache: FileSystemCache::new(),
            request_retry_count: self.request_retry_count,
        }
    }

    /// Caches packages in memory, starting with an empty cache.
    pub fn with_in_memory_cache(self) -> (r: PackageResolverBuilder<InMemoryCache>)
        ensures
            r.request_retry_count == self.request_retry_count,
            r.cache@ == Map::<FileIdView, Seq<u8>>::empty(),
    {
        PackageResolverBuilder {
            cache: InMemoryCache::new(),
            request_retry_count: self.request_retry_count,
        }
    }

    /// The resolver: with the cache of the builder, and with its retry count
    /// or, where none was set, the default.
    pub fn build(self) -> (r: PackageResolver<C>)
        ensures
            r.cache == self.cache,
            r.request_retry_count == match self.request_retry_count {
                Some(n) => n,
                None => REQUEST_RETRY_COUNT,
            },
    {
        let request_retry_count = match self.request_retry_count {
            Some(n) => n,
            None => REQUEST_RETRY_COUNT,
        };
        PackageResolver { cache: self.cache, request_retry_count }
    }
}

/// Resolves the files of registry packages, fetching a package's archive
/// when the cache does not have the file.
#[derive(Debug)]
pub struct PackageResolver<C> {
    pub cache: C,
    pub request_retry_count: u32,
}

impl PackageResolver<()> {
    /// A builder without a cache, with the default retry count.
    pub fn builder() -> (r: PackageResolverBuilder<()>)
        ensures
            r.request_retry_count is None,
    {
        PackageResolverBuilder { cache: (), request_retry_count: None }
    }
}

/// What follows once the body of a successful request was decompressed.
pub fn after_decoding(decoded: Result<Vec<u8>, String>) -> (r: (ResolveState, Action))
    ensures
        decoded_allows(
            match decoded {
                Ok(archive) => Ok(archive@),
                Err(message) => Err(message@),
            },
            r.0,
            r.1,
        ),
{
    match decoded {
        Ok(archive) => (ResolveState::Storing, Action::Store(archive)),
        Err(message) => (
            ResolveState::Done,
            Action::Return(Err(FileError::Package(PackageError::MalformedArchive(Some(message))))),
        ),
    }
}

impl<C> PackageResolver<C> {
    /// The package of `id`, if this resolver serves it.
    pub fn served(id: &FileId) -> (r: Option<&PackageSpec>)
        ensures
            match r {
                Some(package) => served_package(id@) == Some(package@),
                None => served_package(id@) is None,
            },
    {
        match id.package() {
            Some(package) => {
                if is_registry_namespace(package.namespace.as_str()) {
                    Some(package)
                } else {
                    None
                }
            },
            None => None,
        }
    }

    /// One step of the resolution of `id`: in `state`, on `event`, the state
    /// that follows and what is to be done next.
    ///
    /// An id that names no registry package is not found. A cache hit ends the
    /// resolution. After a miss the archive is requested, again after each
    /// failure up to the retry count, and the last failure's message is
    /// reported if all fail. A body that arrives is decompressed and handed
    /// to the cache, and the cache is asked once more: what it then does not
    /// have is not found, without another request.
    pub fn step(&self, id: &FileId, state: ResolveState, event: Event) -> (r: (
        ResolveState,
        Action,
    ))
        ensures
            step_allows(self.request_retry_count, id@, state, event, r.0, r.1),
    {
        let package = match Self::served(id) {
            Some(package) => package,
            None => {
                return (ResolveState::Done, Action::Return(Err(not_found(id))));
            },
        };
        match (state, event) {
            (ResolveState::Start, Event::Begin) => (ResolveState::FirstLookup, Action::Lookup),
            (ResolveState::FirstLookup, Event::Found(Ok(Some(content)))) => (
                ResolveState::Done,
                Action::Return(Ok(content)),
            ),
            (ResolveState::FirstLookup, Event::Found(_)) => {
                if self.request_retry_count == 0 {
                    (
                        ResolveState::Done,
                        Action::Return(Err(FileError::Package(PackageError::Other(None)))),
                    )
                } else {
                    (ResolveState::Fetching { failed: 0 }, Action::Get(archive_url(package)))
                }
            },
            (ResolveState::Fetching { failed }, Event::Response(outcome)) => {
                match fetched(outcome) {
                    Ok(body) => after_decoding(gunzip(body.as_slice())),
                    Err(message) => {
                        if failed < u32::MAX && failed + 1 < self.request_retry_count {
                            (
                                ResolveState::Fetching { failed: failed + 1 },
                                Action::Get(archive_url(package)),
                            )
                        } else {
                            (
                                ResolveState::Done,
                                Action::Return(
                                    Err(
                                        FileError::Package(
                                            PackageError::NetworkFailed(Some(message)),
                                        ),
                                    ),
                                ),
                            )
                        }
                    },
                }
            },
            (ResolveState::Storing, Event::Stored(Ok(()))) => (
                ResolveState::SecondLookup,
                Action::Lookup,
            ),
            (ResolveState::Storing, Event::Stored(Err(e))) => (
                ResolveState::Done,
                Action::Return(Err(e)),
            ),
            (ResolveState::SecondLookup, Event::Found(Ok(Some(content)))) => (
                ResolveState::Done,
                Action::Return(Ok(content)),
            ),
            (ResolveState::SecondLookup, Event::Found(Ok(None))) => (
                ResolveState::Done,
                Action::Return(Err(not_found(id))),
            ),
            (ResolveState::SecondLookup, Event::Found(Err(e))) => (
                ResolveState::Done,
                Action::Return(Err(e)),
            ),
            _ => (
                ResolveState::Done,
                Action::Return(Err(FileError::Other(Some("unexpected event".to_owned())))),
            ),
        }
    }
}

/// Requests are bounded: a step asks for a request only after a cache miss
/// or after a failed request, the count of failed requests grows by one with
/// each, and it stays below the retry count. So a resolution makes at most
/// as many requests as the retry count says, and none once an archive has
/// arrived.
pub proof fn lemma_requests_are_bounded(
    retry_count: u32,
    id: FileIdView,
    state: ResolveState,
    event: Event,
    next: ResolveState,
    action: Action,
)
    requires
        step_allows(retry_count, id, state, event, next, action),
        action is Get,
    ensures
        state is FirstLookup || state is Fetching,
        next is Fetching,
        next->failed < retry_count,
        state is FirstLookup ==> next->failed == 0,
        state is Fetching ==> next->failed == state->failed + 1,
{
}

/// The second lookup decides: whatever the cache gives after the archive
/// was unpacked ends the resolution, and a file that is still missing is
/// not found.
pub proof fn lemma_second_lookup_ends(
    retry_count: u32,
    id: FileIdView,
    event: Event,
    next: ResolveState,
    action: Action,
)
    requires
        step_allows(retry_count, id, ResolveState::SecondLookup, event, next, action),
    ensures
        next is Done,
        action is Return,
        event matches Event::Found(Ok(None)) ==> fails_with(action, not_found_view(id.vpath)),
{
}

/// Whether `action` ends the resolution with content whose view is `content`.
pub open spec fn answers_with(action: Action, content: ContentView) -> bool {
    action matches Action::Return(Ok(c)) && c@ == content
}

/// Whether `action` ends the resolution with what the cache `cache` gives
/// for `id`: the content, or not-found where it has none.
pub open spec fn answers_from(
    cache: Map<FileIdView, Seq<u8>>,
    id: FileIdView,
    kind: ContentKind,
    action: Action,
) -> bool {
    match lookup_spec(cache, id, kind) {
        Ok(Some(content)) => answers_with(action, content),
        Ok(None) => fails_with(action, not_found_view(id.vpath)),
        Err(e) => fails_with(action, e),
    }
}

/// The last readable entry of an archive with a given path is what the cache
/// holds for that path afterwards.
pub proof fn lemma_entry_is_cached(
    cache: Map<FileIdView, Seq<u8>>,
    entries: Seq<ArchiveEntryView>,
    package: PackageSpecView,
    k: int,
)
    requires
        0 <= k < entries.len(),
        entries[k].path is Some,
        entries[k].data is Some,
        forall|j: int|
            k < j < entries.len() && (#[trigger] entries[j]).path is Some && entries[j].data is Some
                ==> vpath_normal_form(entries[j].path->0) != vpath_normal_form(entries[k].path->0),
    ensures
        ({
            let id = FileIdView {
                package: Some(package),
                vpath: vpath_normal_form(entries[k].path->0),
            };
            let after = with_entries(cache, entries, package);
            after.contains_key(id) && after[id] == entries[k].data->0
        }),
    decreases entries.len(),
{
    if k < entries.len() - 1 {
        let front = entries.drop_last();
        assert forall|j: int|
            k < j < front.len() && (#[trigger] front[j]).path is Some
                && front[j].data is Some implies vpath_normal_form(front[j].path->0)
            != vpath_normal_form(front[k].path->0) by {
            assert(front[j] == entries[j]);
        }
        lemma_entry_is_cached(cache, front, package, k);
        assert(entries.last() == entries[entries.len() - 1]);
    }
}

/// Round trip: once an archive was unpacked into the cache, the binary data
/// of a file of the package is the contents of the archive's last readable
/// entry with that path, byte for byte.
pub proof fn lemma_fetched_file_is_served(
    cache: Map<FileIdView, Seq<u8>>,
    entries: Seq<ArchiveEntryView>,
    package: PackageSpecView,
    k: int,
    action: Action,
)
    requires
        0 <= k < entries.len(),
        entries[k].path is Some,
        entries[k].data is Some,
        forall|j: int|
            k < j < entries.len() && (#[trigger] entries[j]).path is Some && entries[j].data is Some
                ==> vpath_normal_form(entries[j].path->0) != vpath_normal_form(entries[k].path->0),
        answers_from(
            with_entries(cache, entries, package),
            FileIdView { package: Some(package), vpath: vpath_normal_form(entries[k].path->0) },
            ContentKind::Binary,
            action,
        ),
    ensures
        answers_with(action, ContentView::Binary(entries[k].data->0)),
{
    lemma_entry_is_cached(cache, entries, package, k);
}

impl PackageResolver<InMemoryCache> {
    /// Begins the resolution of `id` as content of the kind `kind`: an id
    /// that names no registry package is not found; what the cache has is
    /// the answer; otherwise the archive of the package is to be requested.
    pub fn begin(&self, id: &FileId, kind: ContentKind) -> (r: (ResolveState, Action))
        ensures
            match served_package(id@) {
                None => r.0 == ResolveState::Done && fails_with(r.1, not_found_view(id@.vpath)),
                Some(package) => match lookup_spec(self.cache@, id@, kind) {
                    Ok(Some(content)) => r.0 == ResolveState::Done && answers_with(r.1, content),
                    _ => if self.request_retry_count == 0 {
                        r.0 == ResolveState::Done && fails_with(r.1, no_request_error())
                    } else {
                        r.0 == (ResolveState::Fetching { failed: 0 }) && requests(
                            r.1,
                            archive_url_spec(package),
                        )
                    },
                },
            },
    {
        let (state, action) = self.step(id, ResolveState::Start, Event::Begin);
        match action {
            Action::Lookup => {
                let found = self.cache.lookup_cached(id, kind);
                self.step(id, state, Event::Found(found))
            },
            other => (state, other),
        }
    }

    /// Takes in what request number `failed + 1` came to. A failure leads to
    /// the next request, or ends the resolution once the retry count is
    /// reached. A body that arrived is decompressed and unpacked into the
    /// cache, and the answer is what the cache then has for `id`.
    pub fn respond(
        &mut self,
        id: &FileId,
        kind: ContentKind,
        failed: u32,
        outcome: HttpOutcome,
    ) -> (r: (ResolveState, Action))
        ensures
            final(self).request_retry_count == old(self).request_retry_count,
            match served_package(id@) {
                None => r.0 == ResolveState::Done && fails_with(r.1, not_found_view(id@.vpath))
                    && final(self).cache@ == old(self).cache@,
                Some(package) => match failure_of(outcome) {
                    Some(message) => final(self).cache@ == old(self).cache@ && if failed + 1
                        < old(self).request_retry_count {
                        r.0 == (ResolveState::Fetching { failed: (failed + 1) as u32 }) && requests(
                            r.1,
                            archive_url_spec(package),
                        )
                    } else {
                        r.0 == ResolveState::Done && fails_with(
                            r.1,
                            FileErrorView::Package(PackageErrorView::NetworkFailed(Some(message))),
                        )
                    },
                    None => r.0 == ResolveState::Done && match gzip_decoded(body_of(outcome)) {
                        Err(message) => final(self).cache@ == old(self).cache@ && fails_with(
                            r.1,
                            FileErrorView::Package(
                                PackageErrorView::MalformedArchive(Some(message)),
                            ),
                        ),
                        Ok(archive) => match InMemoryCache::cache_archive_spec(
                            old(self).cache@,
                            archive,
                            package,
                        ) {
                            Err(e) => final(self).cache@ == old(self).cache@ && fails_with(r.1, e),
                            Ok(cache) => final(self).cache@ == cache && answers_from(
                                cache,
                                id@,
                                kind,
                                r.1,
                            ),
                        },
                    },
                },
            },
    {
        let (state, action) = self.step(
            id,
            ResolveState::Fetching { failed },
            Event::Response(outcome),
        );
        let archive = match action {
            Action::Store(archive) => archive,
            other => {
                return (state, other);
            },
        };
        let package = match Self::served(id) {
            Some(package) => package,
            None => {
                return (ResolveState::Done, Action::Return(Err(not_found(id))));
            },
        };
        let stored = self.cache.cache_archive(archive.as_slice(), package);
        let (state, action) = self.step(id, state, Event::Stored(stored));
        match action {
            Action::Lookup => {
                let found = self.cache.lookup_cached(id, kind);
                self.step(id, state, Event::Found(found))
            },
            other => (state, other),
        }
    }
}

} // verus!
