//! The packages that a source text imports.
//!
//! The text is parsed with the compiler's own grammar, so that what stands in
//! a comment or in a string is not taken for an import.

use crate::ident::{PackageSpec, PackageSpecView};
use crate::specifier::{parse_package_specifier, parts_view, specifier_parts};
use vstd::prelude::*;

verus! {

/// A top-level expression of a source text, as far as the scan cares.
#[derive(Debug, PartialEq, Eq)]
pub enum TopLevelExpr {
    /// An import whose source is the string literal with this value.
    ImportPath(String),
    /// An import whose source is no string literal.
    ImportOther,
    /// Any other expression.
    Other,
}

/// The mathematical value of a [`TopLevelExpr`].
pub enum TopLevelExprView {
    ImportPath(Seq<char>),
    ImportOther,
    Other,
}

impl View for TopLevelExpr {
    type V = TopLevelExprView;

    open spec fn view(&self) -> TopLevelExprView {
        match *self {
            TopLevelExpr::ImportPath(p) => TopLevelExprView::ImportPath(p@),
            TopLevelExpr::ImportOther => TopLevelExprView::ImportOther,
            TopLevelExpr::Other => TopLevelExprView::Other,
        }
    }
}

/// The views of a list of expressions.
pub open spec fn expr_views(exprs: Seq<TopLevelExpr>) -> Seq<TopLevelExprView> {
    Seq::new(exprs.len(), |i: int| exprs[i]@)
}

/// The views of a list of specifier parts.
pub open spec fn parts_views(list: Seq<(String, String, String)>) -> Seq<
    (Seq<char>, Seq<char>, Seq<char>),
> {
    Seq::new(list.len(), |i: int| parts_view(list[i]))
}

/// The top-level expressions that `typst_syntax` finds in the markup
/// `content`, in order; `None` if the root of the parsed text is no markup.
pub uninterp spec fn markup_exprs(content: Seq<char>) -> Option<Seq<TopLevelExprView>>;

/// Parses `content` with `typst_syntax::Source::detached`, casts the root to
/// `ast::Markup` and walks `Markup::exprs`. Each expression is told apart by
/// its variant: an import with a string literal as its source gives the
/// literal's value (`ast::Str::get`). The outcome depends on the text alone;
/// the contract names it.
#[verifier::external_body]
fn top_level_exprs(content: &str) -> (r: Option<Vec<TopLevelExpr>>)
    ensures
        match r {
            Some(exprs) => markup_exprs(content@) == Some(expr_views(exprs@)),
            None => markup_exprs(content@) is None,
        },
{
    let source = typst_syntax::Source::detached(content);
    let root: typst_syntax::ast::Markup = source.root().cast()?;
    let mut exprs = Vec::new();
    for expr in root.exprs() {
        exprs.push(match expr {
            typst_syntax::ast::Expr::ModuleImport(import) => match import.source() {
                typst_syntax::ast::Expr::Str(path) => TopLevelExpr::ImportPath(path.get().into()),
                _ => TopLevelExpr::ImportOther,
            },
            _ => TopLevelExpr::Other,
        });
    }
    Some(exprs)
}

/// The packages that the expressions `exprs` import: for each import of a
/// string literal that is a package specifier, the parts of the specifier.
pub open spec fn imported_packages(exprs: Seq<TopLevelExprView>) -> Seq<
    (Seq<char>, Seq<char>, Seq<char>),
>
    decreases exprs.len(),
{
    if exprs.len() == 0 {
        Seq::empty()
    } else {
        let before = imported_packages(exprs.drop_last());
        match exprs.last() {
            TopLevelExprView::ImportPath(path) => match specifier_parts(path) {
                Some(parts) => before.push(parts),
                None => before,
            },
            _ => before,
        }
    }
}

/// The packages that the expressions `exprs` import, in order.
pub fn packages_of(exprs: Vec<TopLevelExpr>) -> (r: Vec<(String, String, String)>)
    ensures
        parts_views(r@) == imported_packages(expr_views(exprs@)),
{
    let ghost items = exprs@;
    let ghost views = expr_views(items);
    let mut packages: Vec<(String, String, String)> = Vec::new();
    for expr in it: exprs
        invariant
            it.seq() == items,
            views == expr_views(items),
            parts_views(packages@) == imported_packages(views.take(it.index() as int)),
    {
        let ghost n = it.index() as int;
        let ghost before = packages@;
        proof {
            assert(views.take(n + 1).drop_last() =~= views.take(n));
            assert(views.take(n + 1).last() == expr@);
        }
        match expr {
            TopLevelExpr::ImportPath(path) => {
                match parse_package_specifier(path.as_str()) {
                    Some(parts) => {
                        packages.push(parts);
                        assert(parts_views(packages@) =~= parts_views(before).push(
                            parts_view(parts),
                        ));
                    },
                    None => {},
                }
            },
            _ => {},
        }
    }
    assert(views.take(items.len() as int) =~= views);
    packages
}

/// The message for a text whose parsed root is no markup.
pub const NO_MARKUP: &'static str = "Failed to cast root node to Markup";

/// The packages that the source text `content` imports at its top level,
/// in the order of the imports.
pub fn parse_packages_from_source(content: &str) -> (r: Result<
    Vec<(String, String, String)>,
    String,
>)
    ensures
        match r {
            Ok(packages) => markup_exprs(content@) matches Some(exprs) && parts_views(packages@)
                == imported_packages(exprs),
            Err(message) => markup_exprs(content@) is None && message@ == NO_MARKUP@,
        },
{
    match top_level_exprs(content) {
        Some(exprs) => Ok(packages_of(exprs)),
        None => Err(NO_MARKUP.to_owned()),
    }
}

/// `list` without repetitions: of equal specifications the first one stays.
pub open spec fn without_repeats(list: Seq<PackageSpecView>) -> Seq<PackageSpecView>
    decreases list.len(),
{
    if list.len() == 0 {
        Seq::empty()
    } else {
        let before = without_repeats(list.drop_last());
        if before.contains(list.last()) {
            before
        } else {
            before.push(list.last())
        }
    }
}

/// The views of a list of package specifications.
pub open spec fn spec_views(list: Seq<PackageSpec>) -> Seq<PackageSpecView> {
    Seq::new(list.len(), |i: int| list[i]@)
}

/// The package specification with the parts `parts`.
pub open spec fn spec_of_parts(parts: (Seq<char>, Seq<char>, Seq<char>)) -> PackageSpecView {
    PackageSpecView { namespace: parts.0, name: parts.1, version: parts.2 }
}

/// The packages that the texts `sources` import, all in one list. A text
/// whose root is no markup contributes nothing.
pub open spec fn packages_of_sources(sources: Seq<String>) -> Seq<PackageSpecView>
    decreases sources.len(),
{
    if sources.len() == 0 {
        Seq::empty()
    } else {
        let before = packages_of_sources(sources.drop_last());
        match markup_exprs(sources.last()@) {
            Some(exprs) => before + imported_packages(exprs).map_values(
                |parts: (Seq<char>, Seq<char>, Seq<char>)| spec_of_parts(parts),
            ),
            None => before,
        }
    }
}

/// Whether `list` holds a specification equal to `package`.
pub fn contains_spec(list: &Vec<PackageSpec>, package: &PackageSpec) -> (r: bool)
    ensures
        r == spec_views(list@).contains(package@),
{
    let mut i: usize = 0;
    while i < list.len()
        invariant
            i <= list.len(),
            forall|j: int| 0 <= j < i ==> list@[j]@ != package@,
        decreases list.len() - i,
    {
        if list[i].same(package) {
            assert(spec_views(list@)[i as int] == package@);
            return true;
        }
        i = i + 1;
    }
    assert forall|j: int| 0 <= j < spec_views(list@).len() implies spec_views(list@)[j]
        != package@ by {
        assert(list@[j]@ != package@);
    }
    false
}

/// Adds `package` to `list` unless an equal specification is in it already.
pub fn push_new(list: &mut Vec<PackageSpec>, package: PackageSpec)
    ensures
        spec_views(final(list)@) == if spec_views(old(list)@).contains(package@) {
            spec_views(old(list)@)
        } else {
            spec_views(old(list)@).push(package@)
        },
{
    if !contains_spec(list, &package) {
        list.push(package);
        assert(spec_views(list@) =~= spec_views(old(list)@).push(package@));
    }
}

/// Unfolds [`without_repeats`] for a list with one more element at its end.
proof fn lemma_without_repeats_step(list: Seq<PackageSpecView>, last: PackageSpecView)
    ensures
        without_repeats(list.push(last)) == if without_repeats(list).contains(last) {
            without_repeats(list)
        } else {
            without_repeats(list).push(last)
        },
{
    assert(list.push(last).drop_last() =~= list);
}

/// The set of the packages that the source texts `sources` import: each
/// package once, in the order in which it is met first. A text that cannot be
/// read as markup is passed over.
pub fn extract_packages(sources: &Vec<String>) -> (r: Vec<PackageSpec>)
    ensures
        spec_views(r@) == without_repeats(packages_of_sources(sources@)),
{
    let mut packages: Vec<PackageSpec> = Vec::new();
    let mut i: usize = 0;
    while i < sources.len()
        invariant
            i <= sources.len(),
            spec_views(packages@) == without_repeats(packages_of_sources(sources@.take(i as int))),
        decreases sources.len() - i,
    {
        let ghost before = packages_of_sources(sources@.take(i as int));
        proof {
            assert(sources@.take(i + 1).drop_last() =~= sources@.take(i as int));
        }
        match parse_packages_from_source(sources[i].as_str()) {
            Ok(found) => {
                let ghost exprs = markup_exprs(sources@[i as int]@).unwrap();
                let ghost added = imported_packages(exprs).map_values(
                    |parts: (Seq<char>, Seq<char>, Seq<char>)| spec_of_parts(parts),
                );
                let ghost items = found@;
                assert(before + added.take(0) =~= before);
                for parts in it: found
                    invariant
                        it.seq() == items,
                        added.len() == items.len(),
                        forall|k: int|
                            0 <= k < items.len() ==> added[k] == spec_of_parts(
                                parts_view(#[trigger] items[k]),
                            ),
                        spec_views(packages@) == without_repeats(
                            before + added.take(it.index() as int),
                        ),
                {
                    let ghost k = it.index() as int;
                    let (namespace, name, version) = parts;
                    let package = PackageSpec { namespace, name, version };
                    proof {
                        assert(package@ == added[k]);
                        assert(before + added.take(k + 1) =~= (before + added.take(k)).push(
                            added[k],
                        ));
                        lemma_without_repeats_step(before + added.take(k), added[k]);
                    }
                    push_new(&mut packages, package);
                }
                assert(added.take(items.len() as int) =~= added);
            },
            Err(_) => {},
        }
        i = i + 1;
    }
    assert(sources@.take(sources.len() as int) =~= sources@);
    packages
}

} // verus!
