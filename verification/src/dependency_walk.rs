//! The breadth-first walk over the packages a project needs, directly or
//! through other packages.
//!
//! The walk decides which package is looked at next; fetching it and reading
//! its files is the caller's part. Each package is looked at once, however
//! often it is named, so the walk ends on dependency cycles too.

use crate::ident::{PackageSpec, PackageSpecView};
use crate::imports::{
    contains_spec, extract_packages, packages_of_sources, spec_views, without_repeats,
};
use crate::manifest::{are_dependencies_of, manifest_dependencies, toml_table_at};
use std::collections::VecDeque;
use vstd::prelude::*;
use vstd::string::StringExecFns;

verus! {

/// What the caller is to do next.
#[derive(Debug, PartialEq, Eq)]
pub enum WalkAction {
    /// Make sure that this package is present, and report what came of it.
    Ensure(PackageSpec),
    /// The walk is over: all packages are present, or these could not be fetched.
    Finish(Result<(), Vec<String>>),
}

/// What came of making sure that a package is present.
#[derive(Debug)]
pub enum EnsureOutcome {
    /// The package could not be fetched.
    Failed,
    /// The package is present; this is the text of its manifest, if it has
    /// one that can be read, and these are the texts of its source files.
    Present { manifest: Option<String>, sources: Vec<String> },
}

/// The name under which a package that could not be fetched is reported:
/// `namespace/name-version`.
pub open spec fn failure_label(package: PackageSpecView) -> Seq<char> {
    package.namespace + "/"@ + package.name + "-"@ + package.version
}

/// Whether `package` stands at `k` in `queue` and is the first there that
/// is not among `visited`.
pub open spec fn is_next(
    queue: Seq<PackageSpecView>,
    visited: Seq<PackageSpecView>,
    package: PackageSpecView,
    k: int,
) -> bool {
    &&& 0 <= k < queue.len()
    &&& queue[k] == package
    &&& !visited.contains(package)
    &&& forall|j: int| 0 <= j < k ==> visited.contains(#[trigger] queue[j])
}

/// Whether every package of `queue` is among `visited`.
pub open spec fn all_visited(queue: Seq<PackageSpecView>, visited: Seq<PackageSpecView>) -> bool {
    forall|j: int| 0 <= j < queue.len() ==> visited.contains(#[trigger] queue[j])
}

/// The dependencies that the manifest `manifest` of a package declares, as
/// far as it can be read.
pub open spec fn declared_by(manifest: Option<String>, declared: Seq<PackageSpecView>) -> bool {
    match manifest {
        Some(content) => match toml_table_at(content@, seq!["package"@, "dependencies"@]) {
            Some(entries) => are_dependencies_of(declared, entries),
            None => declared.len() == 0,
        },
        None => declared.len() == 0,
    }
}

/// The texts of a list of strings.
pub open spec fn texts_of(list: Seq<String>) -> Seq<Seq<char>> {
    Seq::new(list.len(), |i: int| list[i]@)
}

/// The state of a walk: the packages that wait, those that were looked at,
/// and those that could not be fetched.
#[derive(Debug)]
pub struct DependencyWalk {
    queue: VecDeque<PackageSpec>,
    visited: Vec<PackageSpec>,
    failed: Vec<String>,
}

impl DependencyWalk {
    /// The packages that wait to be looked at, first in, first out.
    pub closed spec fn queue(&self) -> Seq<PackageSpecView> {
        spec_views(self.queue@)
    }

    /// The packages that were looked at, in that order.
    pub closed spec fn visited(&self) -> Seq<PackageSpecView> {
        spec_views(self.visited@)
    }

    /// The labels of the packages that could not be fetched.
    pub closed spec fn failed(&self) -> Seq<Seq<char>> {
        texts_of(self.failed@)
    }

    /// A walk that starts from `packages`.
    pub fn new(packages: Vec<PackageSpec>) -> (r: Self)
        ensures
            r.queue() == spec_views(packages@),
            r.visited().len() == 0,
            r.failed().len() == 0,
    {
        let mut walk = DependencyWalk {
            queue: VecDeque::new(),
            visited: Vec::new(),
            failed: Vec::new(),
        };
        walk.enqueue(packages);
        assert(walk.queue() =~= spec_views(packages@));
        walk
    }

    /// Puts `packages` at the end of the queue.
    pub fn enqueue(&mut self, packages: Vec<PackageSpec>)
        ensures
            final(self).queue() == old(self).queue() + spec_views(packages@),
            final(self).visited() == old(self).visited(),
            final(self).failed() == old(self).failed(),
    {
        let ghost items = packages@;
        for package in it: packages
            invariant
                it.seq() == items,
                self.queue() == old(self).queue() + spec_views(items).take(it.index() as int),
                self.visited() == old(self).visited(),
                self.failed() == old(self).failed(),
        {
            let ghost n = it.index() as int;
            let ghost before = self.queue@;
            self.queue.push_back(package);
            proof {
                assert(spec_views(self.queue@) =~= spec_views(before).push(package@));
                assert(spec_views(items).take(n + 1) =~= spec_views(items).take(n).push(package@));
            }
        }
        assert(spec_views(items).take(items.len() as int) =~= spec_views(items));
    }

    /// Notes that `package` could not be fetched.
    pub fn record_failure(&mut self, package: &PackageSpec)
        ensures
            final(self).failed() == old(self).failed().push(failure_label(package@)),
            final(self).queue() == old(self).queue(),
            final(self).visited() == old(self).visited(),
    {
        let mut label = package.namespace.clone();
        label.append("/");
        label.append(package.name.as_str());
        label.append("-");
        label.append(package.version.as_str());
        let ghost before = self.failed@;
        self.failed.push(label);
        assert(texts_of(self.failed@) =~= texts_of(before).push(label@));
    }

    /// The next package to look at: the first in the queue that was not
    /// looked at before. It leaves the queue, with all that stood before it,
    /// and counts as looked at from now on. With no such package left the
    /// walk is over, and fails if any package could not be fetched.
    pub fn next(&mut self) -> (r: WalkAction)
        ensures
            final(self).failed() == old(self).failed(),
            match r {
                WalkAction::Ensure(package) => {
                    &&& final(self).visited() == old(self).visited().push(package@)
                    &&& exists|k: int|
                        #[trigger] is_next(old(self).queue(), old(self).visited(), package@, k)
                            && final(self).queue() == old(self).queue().skip(k + 1)
                },
                WalkAction::Finish(result) => {
                    &&& all_visited(old(self).queue(), old(self).visited())
                    &&& final(self).queue().len() == 0
                    &&& final(self).visited() == old(self).visited()
                    &&& match result {
                        Ok(()) => old(self).failed().len() == 0,
                        Err(labels) => old(self).failed().len() > 0
                            && texts_of(labels@) == old(self).failed(),
                    }
                },
            },
            old(self).visited().no_duplicates() ==> final(self).visited().no_duplicates(),
    {
        let ghost start = self.queue();
        let ghost mut skipped: int = 0;
        loop
            invariant
                0 <= skipped <= start.len(),
                start == old(self).queue(),
                self.queue() == start.skip(skipped),
                self.visited() == old(self).visited(),
                self.failed() == old(self).failed(),
                forall|j: int| 0 <= j < skipped ==> self.visited().contains(#[trigger] start[j]),
            decreases self.queue@.len(),
        {
            let ghost waiting = self.queue@;
            proof {
                assert(spec_views(waiting) == start.skip(skipped));
                assert(spec_views(waiting).len() == waiting.len());
                assert(texts_of(self.failed@).len() == self.failed@.len());
            }
            match self.queue.pop_front() {
                None => {
                    assert(skipped == start.len());
                    assert(spec_views(self.queue@).len() == 0);
                    if self.failed.len() == 0 {
                        return WalkAction::Finish(Ok(()));
                    }
                    let labels = self.failed.clone();
                    assert(texts_of(labels@) =~= texts_of(self.failed@));
                    return WalkAction::Finish(Err(labels));
                },
                Some(package) => {
                    proof {
                        assert(spec_views(waiting)[0] == package@);
                        assert(start[skipped] == package@);
                        assert forall|i: int| 0 <= i < self.queue@.len() implies spec_views(
                            self.queue@,
                        )[i] == start.skip(skipped + 1)[i] by {
                            assert(self.queue@[i] == waiting[i + 1]);
                            assert(spec_views(waiting)[i + 1] == start.skip(skipped)[i + 1]);
                        }
                        assert(spec_views(self.queue@) =~= start.skip(skipped + 1));
                    }
                    if !contains_spec(&self.visited, &package) {
                        let ghost seen = self.visited@;
                        self.visited.push(package.clone());
                        proof {
                            assert(spec_views(self.visited@) =~= spec_views(seen).push(package@));
                            assert(is_next(start, old(self).visited(), package@, skipped));
                        }
                        return WalkAction::Ensure(package);
                    }
                    proof {
                        skipped = skipped + 1;
                    }
                },
            }
        }
    }

    /// Takes in what came of making sure that `package` is present. A
    /// failure is noted. For a package that is present, the packages that its
    /// manifest declares as dependencies join the queue, and behind them
    /// those that its source files import, each once.
    pub fn report(&mut self, package: &PackageSpec, outcome: EnsureOutcome)
        ensures
            final(self).visited() == old(self).visited(),
            match outcome {
                EnsureOutcome::Failed => {
                    &&& final(self).queue() == old(self).queue()
                    &&& final(self).failed() == old(self).failed().push(failure_label(package@))
                },
                EnsureOutcome::Present { manifest, sources } => {
                    &&& final(self).failed() == old(self).failed()
                    &&& exists|declared: Seq<PackageSpecView>|
                        #[trigger] declared_by(manifest, declared) && final(self).queue()
                            == old(self).queue() + declared
                            + without_repeats(packages_of_sources(sources@))
                },
            },
    {
        match outcome {
            EnsureOutcome::Failed => {
                self.record_failure(package);
            },
            EnsureOutcome::Present { manifest, sources } => {
                let declared = match manifest {
                    Some(content) => manifest_dependencies(content.as_str()),
                    None => Vec::new(),
                };
                let imported = extract_packages(&sources);
                self.enqueue(declared);
                self.enqueue(imported);
                assert(declared_by(manifest, spec_views(declared@)));
                assert(self.queue() == old(self).queue() + spec_views(declared@)
                    + without_repeats(packages_of_sources(sources@)));
            },
        }
    }
}

/// A walk ends: where the packages that were looked at are all different,
/// and all belong to a finite set of packages, there are at most as many
/// of them as the set has members. So a walk over finitely many packages
/// looks at each of them once at most, cycles or not, and then is over.
pub proof fn lemma_visits_are_bounded(
    visited: Seq<PackageSpecView>,
    packages: Set<PackageSpecView>,
)
    requires
        visited.no_duplicates(),
        packages.finite(),
        forall|i: int| 0 <= i < visited.len() ==> packages.contains(#[trigger] visited[i]),
    ensures
        visited.len() <= packages.len(),
{
    visited.unique_seq_to_set();
    vstd::set_lib::lemma_len_subset(visited.to_set(), packages);
}

} // verus!
