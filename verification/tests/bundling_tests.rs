use typst_as_lib::dependency_walk::{DependencyWalk, EnsureOutcome, WalkAction};
use typst_as_lib::ident::PackageSpec;
use typst_as_lib::imports::{extract_packages, packages_of, TopLevelExpr};
use typst_as_lib::manifest::{
    choose_template_dir, dependencies_of, manifest_dependencies, split_once, template_dir,
};

fn spec(name: &str) -> PackageSpec {
    PackageSpec::new("preview", name, "1.0.0")
}

fn manifest_with(dependencies: &[&str]) -> String {
    let mut text = String::from("[package]\nname = \"x\"\nversion = \"1.0.0\"\n\n[package.dependencies]\n");
    for name in dependencies {
        text.push_str(&format!("{} = \"preview:1.0.0\"\n", name));
    }
    text
}

fn ensure(action: WalkAction) -> PackageSpec {
    match action {
        WalkAction::Ensure(package) => package,
        other => panic!("expected a package, got {:?}", other),
    }
}

#[test]
fn a_dependency_cycle_is_walked_once() {
    // A depends on B, B depends on A.
    let mut walk = DependencyWalk::new(vec![spec("a")]);
    let mut visits = Vec::new();
    let result = loop {
        match walk.next() {
            WalkAction::Ensure(package) => {
                let other = if package.name == "a" { "b" } else { "a" };
                visits.push(package.name.clone());
                walk.report(
                    &package,
                    EnsureOutcome::Present {
                        manifest: Some(manifest_with(&[other])),
                        sources: Vec::new(),
                    },
                );
            }
            WalkAction::Finish(result) => break result,
        }
        assert!(visits.len() <= 2, "the walk does not end");
    };
    assert_eq!(result, Ok(()));
    assert_eq!(visits, vec!["a".to_string(), "b".to_string()]);
}

#[test]
fn the_walk_is_breadth_first_and_follows_imports_too() {
    let mut walk = DependencyWalk::new(vec![spec("a"), spec("b"), spec("a")]);
    let first = ensure(walk.next());
    assert_eq!(first, spec("a"));
    walk.report(
        &first,
        EnsureOutcome::Present {
            manifest: Some(manifest_with(&["c"])),
            sources: vec![
                "#import \"@preview/d:1.0.0\"\n#import \"@preview/d:1.0.0\"".to_string(),
                "#import \"@preview/b:1.0.0\": x".to_string(),
            ],
        },
    );
    let mut order = Vec::new();
    loop {
        match walk.next() {
            WalkAction::Ensure(package) => {
                order.push(package.name.clone());
                walk.report(&package, EnsureOutcome::Present { manifest: None, sources: vec![] });
            }
            WalkAction::Finish(result) => {
                assert_eq!(result, Ok(()));
                break;
            }
        }
    }
    assert_eq!(order, vec!["b".to_string(), "c".to_string(), "d".to_string()]);
}

#[test]
fn failed_packages_are_collected_and_fail_the_walk_at_its_end() {
    let mut walk = DependencyWalk::new(vec![spec("a"), spec("b"), spec("c")]);
    let a = ensure(walk.next());
    walk.report(&a, EnsureOutcome::Failed);
    let b = ensure(walk.next());
    walk.report(&b, EnsureOutcome::Present { manifest: None, sources: vec![] });
    let c = ensure(walk.next());
    walk.record_failure(&c);
    assert_eq!(
        walk.next(),
        WalkAction::Finish(Err(vec!["preview/a-1.0.0".to_string(), "preview/c-1.0.0".to_string()]))
    );
}

#[test]
fn an_empty_walk_is_over_at_once() {
    let mut walk = DependencyWalk::new(Vec::new());
    assert_eq!(walk.next(), WalkAction::Finish(Ok(())));
    walk.enqueue(vec![spec("a")]);
    assert_eq!(ensure(walk.next()), spec("a"));
    walk.enqueue(vec![spec("a")]);
    assert_eq!(walk.next(), WalkAction::Finish(Ok(())));
}

#[test]
fn manifest_dependencies_are_read_from_the_dependency_table() {
    let manifest = r#"
        [package]
        name = "cetz"
        version = "0.3.2"

        [package.dependencies]
        oxifmt = "preview:0.2.1"
        broken = "no-colon"
        number = 3
        local-tool = "local:1.0:2"
    "#;
    let mut dependencies = manifest_dependencies(manifest);
    dependencies.sort_by(|a, b| a.name.cmp(&b.name));
    assert_eq!(
        dependencies,
        vec![
            PackageSpec::new("local", "local-tool", "1.0:2"),
            PackageSpec::new("preview", "oxifmt", "0.2.1"),
        ]
    );
    assert_eq!(manifest_dependencies("[package]\nname = \"x\""), Vec::new());
    assert_eq!(manifest_dependencies("this is ] no toml"), Vec::new());
    assert_eq!(manifest_dependencies("[package]\ndependencies = 3"), Vec::new());
}

#[test]
fn dependencies_follow_the_order_of_the_entries() {
    let entries = vec![
        ("b".to_string(), Some("preview:2.0.0".to_string())),
        ("skipped".to_string(), None),
        ("a".to_string(), Some(":1".to_string())),
        ("c".to_string(), Some("nothing".to_string())),
    ];
    assert_eq!(
        dependencies_of(entries),
        vec![PackageSpec::new("preview", "b", "2.0.0"), PackageSpec::new("", "a", "1")]
    );
}

#[test]
fn split_once_splits_at_the_first_separator() {
    assert_eq!(split_once("a:b:c", ':'), Some(("a".to_string(), "b:c".to_string())));
    assert_eq!(split_once(":", ':'), Some((String::new(), String::new())));
    assert_eq!(split_once("abc", ':'), None);
    assert_eq!(split_once("", ':'), None);
}

#[test]
fn the_explicit_template_dir_comes_first() {
    let manifest = r#"
        [package]
        name = "app"

        [package.metadata.typst-as-lib]
        template-dir = "./templates"
    "#;
    assert_eq!(
        template_dir(Some("./override".to_string()), Some(manifest.to_string())),
        Some("./override".to_string())
    );
    assert_eq!(template_dir(None, Some(manifest.to_string())), Some("./templates".to_string()));
    assert_eq!(template_dir(None, Some("[package]\nname = \"app\"".to_string())), None);
    assert_eq!(
        template_dir(
            None,
            Some("[package.metadata.typst-as-lib]\ntemplate-dir = 3".to_string())
        ),
        None
    );
    assert_eq!(template_dir(None, Some("not toml at all [".to_string())), None);
    assert_eq!(template_dir(None, None), None);
    assert_eq!(
        choose_template_dir(
            None,
            Some(vec![
                ("other".to_string(), Some("x".to_string())),
                ("template-dir".to_string(), Some("t".to_string())),
            ])
        ),
        Some("t".to_string())
    );
}

#[test]
fn extracted_packages_form_a_set() {
    let sources = vec![
        "#import \"@preview/cetz:0.3.2\"\n#import \"@preview/polylux:0.3.1\": *".to_string(),
        "#import \"utils.typ\": a\n#import \"@preview/cetz:0.3.2\": canvas".to_string(),
        "// #import \"@preview/fake:1.0.0\"\n#let x = \"@preview/other:1.0.0\"".to_string(),
    ];
    assert_eq!(
        extract_packages(&sources),
        vec![
            PackageSpec::new("preview", "cetz", "0.3.2"),
            PackageSpec::new("preview", "polylux", "0.3.1"),
        ]
    );
    assert_eq!(extract_packages(&Vec::new()), Vec::new());
}

#[test]
fn only_imports_of_specifiers_count() {
    let exprs = vec![
        TopLevelExpr::Other,
        TopLevelExpr::ImportPath("@preview/cetz:0.3.2".to_string()),
        TopLevelExpr::ImportOther,
        TopLevelExpr::ImportPath("utils.typ".to_string()),
        TopLevelExpr::ImportPath("@preview/cetz".to_string()),
    ];
    assert_eq!(
        packages_of(exprs),
        vec![("preview".to_string(), "cetz".to_string(), "0.3.2".to_string())]
    );
}
