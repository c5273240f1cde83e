use typst_as_lib::imports::parse_packages_from_source;
use typst_as_lib::specifier::{is_valid_identifier, is_valid_version, parse_package_specifier};

#[test]
fn test_parse_package_specifier_valid() {
    assert_eq!(
        parse_package_specifier("@preview/cetz:0.3.2"),
        Some((
            "preview".to_string(),
            "cetz".to_string(),
            "0.3.2".to_string()
        ))
    );
    assert_eq!(
        parse_package_specifier("@preview/polylux:0.3.1"),
        Some((
            "preview".to_string(),
            "polylux".to_string(),
            "0.3.1".to_string()
        ))
    );
}

#[test]
fn test_parse_package_specifier_no_at_sign() {
    assert_eq!(parse_package_specifier("preview/cetz:0.3.2"), None);
}

#[test]
fn test_parse_package_specifier_invalid_format() {
    assert_eq!(parse_package_specifier("@preview"), None);
    assert_eq!(parse_package_specifier("@preview/cetz"), None);
    assert_eq!(parse_package_specifier("@/cetz:0.3.2"), None);
    assert_eq!(parse_package_specifier("@preview/:0.3.2"), None);
}

#[test]
fn test_parse_packages_from_source_simple() {
    let content = r#"#import "@preview/cetz:0.3.2""#;
    let packages = parse_packages_from_source(content).unwrap();
    assert_eq!(packages.len(), 1);
    assert_eq!(
        packages[0],
        (
            "preview".to_string(),
            "cetz".to_string(),
            "0.3.2".to_string()
        )
    );
}

#[test]
fn test_parse_packages_ignores_comments() {
    let content = r#"
        // This should be ignored: @preview/fake:1.0.0
        /* Also ignored: @preview/another:2.0.0 */
        #import "@preview/cetz:0.3.2"
        "#;
    let packages = parse_packages_from_source(content).unwrap();
    assert_eq!(packages.len(), 1);
    assert_eq!(packages[0].1, "cetz");
}

#[test]
fn test_parse_packages_ignores_strings() {
    let content = r#"
        #let description = "Uses @preview/fake:1.0.0 for testing"
        #import "@preview/cetz:0.3.2"
        "#;
    let packages = parse_packages_from_source(content).unwrap();
    assert_eq!(packages.len(), 1);
    assert_eq!(packages[0].1, "cetz");
}

#[test]
fn test_parse_packages_multiple_imports() {
    let content = r#"
        #import "@preview/cetz:0.3.2"
        #import "@preview/polylux:0.3.1"
        "#;
    let packages = parse_packages_from_source(content).unwrap();
    assert_eq!(packages.len(), 2);
}

#[test]
fn test_is_valid_identifier() {
    assert!(is_valid_identifier("preview"));
    assert!(is_valid_identifier("cetz"));
    assert!(is_valid_identifier("my-package"));
    assert!(is_valid_identifier("my_package"));
    assert!(!is_valid_identifier(""));
    assert!(!is_valid_identifier("my package"));
}

#[test]
fn test_is_valid_version() {
    assert!(is_valid_version("0.3.2"));
    assert!(is_valid_version("1.0.0"));
    assert!(is_valid_version("2.1"));
    assert!(!is_valid_version(""));
    assert!(!is_valid_version("1.0.0-beta"));
}

#[test]
fn specifier_with_extra_separators_is_no_match() {
    assert_eq!(parse_package_specifier("@preview/cetz/x:0.3.2"), None);
    assert_eq!(parse_package_specifier("@preview/cetz:0.3:2"), None);
    assert_eq!(parse_package_specifier(""), None);
    assert_eq!(parse_package_specifier("@"), None);
    assert_eq!(parse_package_specifier("@preview/cetz:"), None);
    assert_eq!(parse_package_specifier("@preview/cetz:0.3.x"), None);
}
