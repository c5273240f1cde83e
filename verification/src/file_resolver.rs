//! The resolver capability, the resolvers that answer from memory, and the
//! chain that tries resolvers in order.

use crate::conversions::{IntoBytes, IntoFileId, IntoSource};
use crate::error::{not_found, not_found_view, FileError, FileErrorView};
use crate::ident::{FileId, FileIdView};
use crate::table::Table;
use crate::util::{binary_result_view, source_result_view, Source, SourceView};
use vstd::prelude::*;

verus! {

/// Something that can answer, for a file id, with source text or with binary
/// data. The two operations are independent: a resolver may serve one kind
/// only and answer not-found for the other.
///
/// A resolver can be handed to another thread and shared between threads.
/// What a resolver may answer is described by [`Self::answers_binary`] and
/// [`Self::answers_source`]. A resolver that says nothing about itself may
/// answer anything.
pub trait FileResolver: Send + Sync {
    /// Whether `answer` is something this resolver, as it stands, may give
    /// when asked for the binary data of `id`.
    open spec fn answers_binary(
        &self,
        id: FileIdView,
        answer: Result<Seq<u8>, FileErrorView>,
    ) -> bool {
        true
    }

    /// Whether `answer` is something this resolver, as it stands, may give
    /// when asked for the source text of `id`.
    open spec fn answers_source(
        &self,
        id: FileIdView,
        answer: Result<SourceView, FileErrorView>,
    ) -> bool {
        true
    }

    /// The binary data of `id`.
    fn resolve_binary(&mut self, id: &FileId) -> (r: Result<Vec<u8>, FileError>)
        ensures
            old(self).answers_binary(id@, binary_result_view(r)),
    ;

    /// The source text of `id`.
    fn resolve_source(&mut self, id: &FileId) -> (r: Result<Source, FileError>)
        ensures
            old(self).answers_source(id@, source_result_view(r)),
    ;
}

/// What a lookup of `id` in a map of views gives: the value, or not-found.
pub open spec fn lookup_or_not_found<T>(map: Map<FileIdView, T>, id: FileIdView) -> Result<
    T,
    FileErrorView,
> {
    if map.contains_key(id) {
        Ok(map[id])
    } else {
        Err(not_found_view(id.vpath))
    }
}

/// Serves one source file, the main file of a compilation.
#[derive(Debug)]
pub struct MainSourceFileResolver {
    main_source: Source,
}

impl MainSourceFileResolver {
    /// A resolver for `main_source` alone.
    pub fn new(main_source: Source) -> (r: Self)
        ensures
            r.main_source() == main_source@,
    {
        MainSourceFileResolver { main_source }
    }

    /// The source file that is served.
    pub closed spec fn main_source(&self) -> SourceView {
        self.main_source@
    }
}

impl FileResolver for MainSourceFileResolver {
    open spec fn answers_binary(
        &self,
        id: FileIdView,
        answer: Result<Seq<u8>, FileErrorView>,
    ) -> bool {
        answer == Err::<Seq<u8>, FileErrorView>(not_found_view(id.vpath))
    }

    open spec fn answers_source(
        &self,
        id: FileIdView,
        answer: Result<SourceView, FileErrorView>,
    ) -> bool {
        answer == if id == self.main_source().id {
            Ok::<SourceView, FileErrorView>(self.main_source())
        } else {
            Err::<SourceView, FileErrorView>(not_found_view(id.vpath))
        }
    }

    fn resolve_binary(&mut self, id: &FileId) -> (r: Result<Vec<u8>, FileError>)
        ensures
            *final(self) == *old(self),
    {
        Err(not_found(id))
    }

    fn resolve_source(&mut self, id: &FileId) -> (r: Result<Source, FileError>)
        ensures
            *final(self) == *old(self),
    {
        if id.same(self.main_source.id()) {
            return Ok(self.main_source.clone());
        }
        Err(not_found(id))
    }
}

/// The map that a list of sources makes: each under its own id, a later one
/// in place of an earlier one with the same id.
pub open spec fn sources_by_id(sources: Seq<SourceView>) -> Map<FileIdView, SourceView>
    decreases sources.len(),
{
    if sources.len() == 0 {
        Map::empty()
    } else {
        sources_by_id(sources.drop_last()).insert(sources.last().id, sources.last())
    }
}

/// Serves source files from memory.
#[derive(Debug)]
pub struct StaticSourceFileResolver {
    sources: Table<FileId, Source>,
}

impl StaticSourceFileResolver {
    /// A resolver that serves each of `sources` under its id.
    pub fn new<S: IntoSource>(sources: Vec<S>) -> (r: Self)
        ensures
            r.sources() == sources_by_id(Seq::new(sources.len() as nat, |i: int| sources[i].source())),
    {
        let ghost items = sources@;
        let ghost all = Seq::new(items.len(), |i: int| items[i].source());
        let mut table: Table<FileId, Source> = Table::new();
        for s in it: sources
            invariant
                it.seq() == items,
                all == Seq::new(items.len(), |i: int| items[i].source()),
                table@ == sources_by_id(all.take(it.index() as int)),
        {
            let ghost n = it.index() as int;
            let source = s.into_source();
            let id = source.id().clone();
            proof {
                assert(all.take(n + 1).drop_last() =~= all.take(n));
            }
            table.insert(id, source);
        }
        assert(all.take(items.len() as int) =~= all);
        StaticSourceFileResolver { sources: table }
    }

    /// The sources that are served, by id.
    pub closed spec fn sources(&self) -> Map<FileIdView, SourceView> {
        self.sources@
    }
}

impl FileResolver for StaticSourceFileResolver {
    open spec fn answers_binary(
        &self,
        id: FileIdView,
        answer: Result<Seq<u8>, FileErrorView>,
    ) -> bool {
        answer == Err::<Seq<u8>, FileErrorView>(not_found_view(id.vpath))
    }

    open spec fn answers_source(
        &self,
        id: FileIdView,
        answer: Result<SourceView, FileErrorView>,
    ) -> bool {
        answer == lookup_or_not_found(self.sources(), id)
    }

    fn resolve_binary(&mut self, id: &FileId) -> (r: Result<Vec<u8>, FileError>)
        ensures
            *final(self) == *old(self),
    {
        Err(not_found(id))
    }

    fn resolve_source(&mut self, id: &FileId) -> (r: Result<Source, FileError>)
        ensures
            *final(self) == *old(self),
    {
        match self.sources.get(id) {
            Some(source) => Ok(source.clone()),
            None => Err(not_found(id)),
        }
    }
}

/// The map that a list of binaries makes: each under its id, a later one in
/// place of an earlier one with the same id.
pub open spec fn binaries_by_id(binaries: Seq<(FileIdView, Seq<u8>)>) -> Map<FileIdView, Seq<u8>>
    decreases binaries.len(),
{
    if binaries.len() == 0 {
        Map::empty()
    } else {
        binaries_by_id(binaries.drop_last()).insert(binaries.last().0, binaries.last().1)
    }
}

/// Serves binary files from memory.
#[derive(Debug)]
pub struct StaticFileResolver {
    binaries: Table<FileId, Vec<u8>>,
}

impl StaticFileResolver {
    /// A resolver that serves each of `binaries` under the id it comes with.
    pub fn new<F: IntoFileId, B: IntoBytes>(binaries: Vec<(F, B)>) -> (r: Self)
        ensures
            r.binaries() == binaries_by_id(
                Seq::new(
                    binaries.len() as nat,
                    |i: int| (binaries[i].0.file_id(), binaries[i].1.bytes()),
                ),
            ),
    {
        let ghost items = binaries@;
        let ghost all = Seq::new(items.len(), |i: int| (items[i].0.file_id(), items[i].1.bytes()));
        let mut table: Table<FileId, Vec<u8>> = Table::new();
        for pair in it: binaries
            invariant
                it.seq() == items,
                all == Seq::new(items.len(), |i: int| (items[i].0.file_id(), items[i].1.bytes())),
                table@ == binaries_by_id(all.take(it.index() as int)),
        {
            let ghost n = it.index() as int;
            let (id, bytes) = pair;
            proof {
                assert(all.take(n + 1).drop_last() =~= all.take(n));
            }
            table.insert(id.into_file_id(), bytes.into_bytes());
        }
        assert(all.take(items.len() as int) =~= all);
        StaticFileResolver { binaries: table }
    }

    /// The binaries that are served, by id.
    pub closed spec fn binaries(&self) -> Map<FileIdView, Seq<u8>> {
        self.binaries@
    }
}

impl FileResolver for StaticFileResolver {
    open spec fn answers_binary(
        &self,
        id: FileIdView,
        answer: Result<Seq<u8>, FileErrorView>,
    ) -> bool {
        answer == lookup_or_not_found(self.binaries(), id)
    }

    open spec fn answers_source(
        &self,
        id: FileIdView,
        answer: Result<SourceView, FileErrorView>,
    ) -> bool {
        answer == Err::<SourceView, FileErrorView>(not_found_view(id.vpath))
    }

    fn resolve_binary(&mut self, id: &FileId) -> (r: Result<Vec<u8>, FileError>)
        ensures
            *final(self) == *old(self),
    {
        match self.binaries.get(id) {
            Some(bytes) => Ok(bytes.clone()),
            None => Err(not_found(id)),
        }
    }

    fn resolve_source(&mut self, id: &FileId) -> (r: Result<Source, FileError>)
        ensures
            *final(self) == *old(self),
    {
        Err(not_found(id))
    }
}

/// Whether the resolver `resolver` may fail when asked for the binary data of `id`.
pub open spec fn may_fail_binary<R: FileResolver + ?Sized>(resolver: &R, id: FileIdView) -> bool {
    exists|e: FileErrorView| #[trigger] resolver.answers_binary(id, Err::<Seq<u8>, FileErrorView>(e))
}

/// Whether the resolver at `k` is the one whose success a chain answers
/// with: all before it have failed, it has answered `bytes`, and those
/// behind it were not asked, so they are in `after` as they were in `before`.
pub open spec fn succeeds_at_binary(
    before: Seq<Box<dyn FileResolver>>,
    id: FileIdView,
    bytes: Seq<u8>,
    after: Seq<Box<dyn FileResolver>>,
    k: int,
) -> bool {
    &&& 0 <= k < before.len()
    &&& forall|j: int| 0 <= j < k ==> may_fail_binary(&*#[trigger] before[j], id)
    &&& before[k].answers_binary(id, Ok::<Seq<u8>, FileErrorView>(bytes))
    &&& forall|j: int| k < j < before.len() ==> #[trigger] after[j] == before[j]
}

/// What a chain of resolvers may do when asked for the binary data of `id`:
/// it answers with the success of the first resolver that succeeds, and asks
/// none behind it; or, all having failed, with the error of the last one. An
/// empty chain answers not-found.
pub open spec fn chain_resolves_binary(
    before: Seq<Box<dyn FileResolver>>,
    id: FileIdView,
    answer: Result<Seq<u8>, FileErrorView>,
    after: Seq<Box<dyn FileResolver>>,
) -> bool {
    &&& after.len() == before.len()
    &&& match answer {
        Ok(bytes) => first_succeeds_binary(before, id, bytes, after),
        Err(error) => all_fail_binary(before, id, error),
    }
}

/// Whether a chain answers with `bytes`, the success of its first resolver
/// that succeeds.
pub open spec fn first_succeeds_binary(
    before: Seq<Box<dyn FileResolver>>,
    id: FileIdView,
    bytes: Seq<u8>,
    after: Seq<Box<dyn FileResolver>>,
) -> bool {
    exists|k: int| #[trigger] succeeds_at_binary(before, id, bytes, after, k)
}

/// Whether a chain fails with `error`: every resolver may fail, and `error`
/// is what the last one fails with, or not-found for an empty chain.
pub open spec fn all_fail_binary(
    before: Seq<Box<dyn FileResolver>>,
    id: FileIdView,
    error: FileErrorView,
) -> bool {
    &&& forall|j: int| 0 <= j < before.len() ==> may_fail_binary(&*#[trigger] before[j], id)
    &&& if before.len() == 0 {
        error == not_found_view(id.vpath)
    } else {
        before.last().answers_binary(id, Err::<Seq<u8>, FileErrorView>(error))
    }
}

/// Whether the resolver `resolver` may fail when asked for the source text of `id`.
pub open spec fn may_fail_source<R: FileResolver + ?Sized>(resolver: &R, id: FileIdView) -> bool {
    exists|e: FileErrorView| #[trigger] resolver.answers_source(id, Err::<SourceView, FileErrorView>(e))
}

/// Whether the resolver at `k` is the one whose success a chain answers
/// with: all before it have failed, it has answered `source`, and those
/// behind it were not asked, so they are in `after` as they were in `before`.
pub open spec fn succeeds_at_source(
    before: Seq<Box<dyn FileResolver>>,
    id: FileIdView,
    source: SourceView,
    after: Seq<Box<dyn FileResolver>>,
    k: int,
) -> bool {
    &&& 0 <= k < before.len()
    &&& forall|j: int| 0 <= j < k ==> may_fail_source(&*#[trigger] before[j], id)
    &&& before[k].answers_source(id, Ok::<SourceView, FileErrorView>(source))
    &&& forall|j: int| k < j < before.len() ==> #[trigger] after[j] == before[j]
}

/// What a chain of resolvers may do when asked for the source text of `id`:
/// it answers with the success of the first resolver that succeeds, and asks
/// none behind it; or, all having failed, with the error of the last one. An
/// empty chain answers not-found.
pub open spec fn chain_resolves_source(
    before: Seq<Box<dyn FileResolver>>,
    id: FileIdView,
    answer: Result<SourceView, FileErrorView>,
    after: Seq<Box<dyn FileResolver>>,
) -> bool {
    &&& after.len() == before.len()
    &&& match answer {
        Ok(source) => first_succeeds_source(before, id, source, after),
        Err(error) => all_fail_source(before, id, error),
    }
}

/// Whether a chain answers with `source`, the success of its first resolver
/// that succeeds.
pub open spec fn first_succeeds_source(
    before: Seq<Box<dyn FileResolver>>,
    id: FileIdView,
    source: SourceView,
    after: Seq<Box<dyn FileResolver>>,
) -> bool {
    exists|k: int| #[trigger] succeeds_at_source(before, id, source, after, k)
}

/// Whether a chain fails with `error`: every resolver may fail, and `error`
/// is what the last one fails with, or not-found for an empty chain.
pub open spec fn all_fail_source(
    before: Seq<Box<dyn FileResolver>>,
    id: FileIdView,
    error: FileErrorView,
) -> bool {
    &&& forall|j: int| 0 <= j < before.len() ==> may_fail_source(&*#[trigger] before[j], id)
    &&& if before.len() == 0 {
        error == not_found_view(id.vpath)
    } else {
        before.last().answers_source(id, Err::<SourceView, FileErrorView>(error))
    }
}

/// An ordered list of resolvers that are tried one after the other.
pub struct ResolverChain {
    resolvers: Vec<Box<dyn FileResolver>>,
}

impl ResolverChain {
    /// The resolvers, in the order in which they are tried.
    pub closed spec fn resolvers(&self) -> Seq<Box<dyn FileResolver>> {
        self.resolvers@
    }

    /// A chain without resolvers.
    pub fn new() -> (r: Self)
        ensures
            r.resolvers() == Seq::<Box<dyn FileResolver>>::empty(),
    {
        ResolverChain { resolvers: Vec::new() }
    }

    /// Adds `resolver` at the end of the chain: it is tried after all that
    /// are in the chain already.
    pub fn add_file_resolver(&mut self, resolver: Box<dyn FileResolver>)
        ensures
            final(self).resolvers() == old(self).resolvers().push(resolver),
    {
        self.resolvers.push(resolver);
    }

    /// The number of resolvers in the chain.
    pub fn len(&self) -> (r: usize)
        ensures
            r == self.resolvers().len(),
    {
        self.resolvers.len()
    }

    /// Asks the resolvers in order for the binary data of `id`. The first
    /// success ends the search; if every resolver fails, the error is that
    /// of the last one.
    pub fn resolve_binary(&mut self, id: &FileId) -> (r: Result<Vec<u8>, FileError>)
        ensures
            chain_resolves_binary(
                old(self).resolvers(),
                id@,
                binary_result_view(r),
                final(self).resolvers(),
            ),
    {
        let ghost before = self.resolvers@;
        let mut last_error = not_found(id);
        let n = self.resolvers.len();
        let mut i: usize = 0;
        while i < n
            invariant
                i <= n,
                n == before.len(),
                self.resolvers@.len() == n,
                before == old(self).resolvers@,
                forall|j: int| i <= j < n ==> self.resolvers@[j] == before[j],
                forall|j: int| 0 <= j < i ==> may_fail_binary(&*#[trigger] before[j], id@),
                if i == 0 {
                    last_error@ == not_found_view(id@.vpath)
                } else {
                    before[i - 1].answers_binary(id@, Err::<Seq<u8>, FileErrorView>(last_error@))
                },
            decreases n - i,
        {
            match self.resolvers[i].resolve_binary(id) {
                Ok(bytes) => {
                    assert(succeeds_at_binary(before, id@, bytes@, self.resolvers@, i as int));
                    assert(first_succeeds_binary(before, id@, bytes@, self.resolvers@));
                    return Ok(bytes);
                },
                Err(error) => {
                    assert(before[i as int].answers_binary(
                        id@,
                        Err::<Seq<u8>, FileErrorView>(error@),
                    ));
                    assert(may_fail_binary(&*before[i as int], id@));
                    last_error = error;
                },
            }
            i = i + 1;
        }
        Err(last_error)
    }

    /// Asks the resolvers in order for the source text of `id`. The first
    /// success ends the search; if every resolver fails, the error is that
    /// of the last one.
    pub fn resolve_source(&mut self, id: &FileId) -> (r: Result<Source, FileError>)
        ensures
            chain_resolves_source(
                old(self).resolvers(),
                id@,
                source_result_view(r),
                final(self).resolvers(),
            ),
    {
        let ghost before = self.resolvers@;
        let mut last_error = not_found(id);
        let n = self.resolvers.len();
        let mut i: usize = 0;
        while i < n
            invariant
                i <= n,
                n == before.len(),
                self.resolvers@.len() == n,
                before == old(self).resolvers@,
                forall|j: int| i <= j < n ==> self.resolvers@[j] == before[j],
                forall|j: int| 0 <= j < i ==> may_fail_source(&*#[trigger] before[j], id@),
                if i == 0 {
                    last_error@ == not_found_view(id@.vpath)
                } else {
                    before[i - 1].answers_source(id@, Err::<SourceView, FileErrorView>(last_error@))
                },
            decreases n - i,
        {
            match self.resolvers[i].resolve_source(id) {
                Ok(source) => {
                    assert(succeeds_at_source(before, id@, source@, self.resolvers@, i as int));
                    assert(first_succeeds_source(before, id@, source@, self.resolvers@));
                    return Ok(source);
                },
                Err(error) => {
                    assert(before[i as int].answers_source(
                        id@,
                        Err::<SourceView, FileErrorView>(error@),
                    ));
                    assert(may_fail_source(&*before[i as int], id@));
                    last_error = error;
                },
            }
            i = i + 1;
        }
        Err(last_error)
    }
}

/// First success wins: where one resolver of the chain always succeeds with
/// `bytes` and every resolver before it always fails, the chain answers
/// `bytes`, whatever stands behind that resolver, and asks none behind it.
pub proof fn lemma_chain_first_success_binary(
    before: Seq<Box<dyn FileResolver>>,
    id: FileIdView,
    k: int,
    bytes: Seq<u8>,
    answer: Result<Seq<u8>, FileErrorView>,
    after: Seq<Box<dyn FileResolver>>,
)
    requires
        0 <= k < before.len(),
        forall|a: Result<Seq<u8>, FileErrorView>|
            #[trigger] before[k].answers_binary(id, a) ==> a == Ok::<Seq<u8>, FileErrorView>(bytes),
        forall|j: int, a: Result<Seq<u8>, FileErrorView>|
            0 <= j < k && #[trigger] before[j].answers_binary(id, a) ==> a is Err,
        chain_resolves_binary(before, id, answer, after),
    ensures
        answer == Ok::<Seq<u8>, FileErrorView>(bytes),
        forall|j: int| k < j < before.len() ==> #[trigger] after[j] == before[j],
{
    match answer {
        Ok(found) => {
            let w = choose|w: int| #[trigger] succeeds_at_binary(before, id, found, after, w);
            if w > k {
                assert(may_fail_binary(&*before[k], id));
            }
        },
        Err(e) => {
            assert(may_fail_binary(&*before[k], id));
        },
    }
}

/// Last error wins: where every resolver of a chain always fails, and the
/// last one always fails with `error`, the chain fails with `error`.
pub proof fn lemma_chain_last_error_binary(
    before: Seq<Box<dyn FileResolver>>,
    id: FileIdView,
    error: FileErrorView,
    answer: Result<Seq<u8>, FileErrorView>,
    after: Seq<Box<dyn FileResolver>>,
)
    requires
        before.len() > 0,
        forall|j: int, a: Result<Seq<u8>, FileErrorView>|
            0 <= j < before.len() && #[trigger] before[j].answers_binary(id, a) ==> a is Err,
        forall|a: Result<Seq<u8>, FileErrorView>|
            #[trigger] before.last().answers_binary(id, a) ==> a == Err::<Seq<u8>, FileErrorView>(
                error,
            ),
        chain_resolves_binary(before, id, answer, after),
    ensures
        answer == Err::<Seq<u8>, FileErrorView>(error),
{
    if answer is Ok {
        let w = choose|w: int| #[trigger] succeeds_at_binary(before, id, answer->Ok_0, after, w);
        assert(before[w].answers_binary(id, answer));
    }
}

/// First success wins, for source text; see [`lemma_chain_first_success_binary`].
pub proof fn lemma_chain_first_success_source(
    before: Seq<Box<dyn FileResolver>>,
    id: FileIdView,
    k: int,
    source: SourceView,
    answer: Result<SourceView, FileErrorView>,
    after: Seq<Box<dyn FileResolver>>,
)
    requires
        0 <= k < before.len(),
        forall|a: Result<SourceView, FileErrorView>|
            #[trigger] before[k].answers_source(id, a) ==> a == Ok::<SourceView, FileErrorView>(source),
        forall|j: int, a: Result<SourceView, FileErrorView>|
            0 <= j < k && #[trigger] before[j].answers_source(id, a) ==> a is Err,
        chain_resolves_source(before, id, answer, after),
    ensures
        answer == Ok::<SourceView, FileErrorView>(source),
        forall|j: int| k < j < before.len() ==> #[trigger] after[j] == before[j],
{
    match answer {
        Ok(found) => {
            let w = choose|w: int| #[trigger] succeeds_at_source(before, id, found, after, w);
            if w > k {
                assert(may_fail_source(&*before[k], id));
            }
        },
        Err(e) => {
            assert(may_fail_source(&*before[k], id));
        },
    }
}

/// Last error wins, for source text; see [`lemma_chain_last_error_binary`].
pub proof fn lemma_chain_last_error_source(
    before: Seq<Box<dyn FileResolver>>,
    id: FileIdView,
    error: FileErrorView,
    answer: Result<SourceView, FileErrorView>,
    after: Seq<Box<dyn FileResolver>>,
)
    requires
        before.len() > 0,
        forall|j: int, a: Result<SourceView, FileErrorView>|
            0 <= j < before.len() && #[trigger] before[j].answers_source(id, a) ==> a is Err,
        forall|a: Result<SourceView, FileErrorView>|
            #[trigger] before.last().answers_source(id, a) ==> a == Err::<SourceView, FileErrorView>(
                error,
            ),
        chain_resolves_source(before, id, answer, after),
    ensures
        answer == Err::<SourceView, FileErrorView>(error),
{
    if answer is Ok {
        let w = choose|w: int| #[trigger] succeeds_at_source(before, id, answer->Ok_0, after, w);
        assert(before[w].answers_source(id, answer));
    }
}

} // verus!
