//! Package specifiers as they stand in import statements:
//! `@namespace/name:version`.

use crate::text::{char_is_alphanumeric, char_is_numeric, chars_of, find_from, string_of};
use vstd::prelude::*;

verus! {

/// Whether `c` may stand in a namespace or a package name.
pub open spec fn identifier_char(c: char) -> bool {
    char_is_alphanumeric(c) || c == '-' || c == '_'
}

/// Whether `c` may stand in a version.
pub open spec fn version_char(c: char) -> bool {
    char_is_numeric(c) || c == '.'
}

/// Whether `s` is a namespace or package name: not empty, and made of
/// letters, digits, `-` and `_`.
pub open spec fn valid_identifier(s: Seq<char>) -> bool {
    s.len() > 0 && forall|i: int| 0 <= i < s.len() ==> identifier_char(#[trigger] s[i])
}

/// Whether `s` is a version: not empty, and made of digits and dots.
pub open spec fn valid_version(s: Seq<char>) -> bool {
    s.len() > 0 && forall|i: int| 0 <= i < s.len() ==> version_char(#[trigger] s[i])
}

/// The specifier of the package with these three parts.
pub open spec fn specifier_text(namespace: Seq<char>, name: Seq<char>, version: Seq<char>) -> Seq<
    char,
> {
    seq!['@'] + namespace + seq!['/'] + name + seq![':'] + version
}

/// Whether `s` is the specifier of the package with these three parts: the
/// text fits, the parts are valid, and the separators are the only `/` and,
/// behind it, the only `:`.
pub open spec fn is_specifier_of(
    s: Seq<char>,
    namespace: Seq<char>,
    name: Seq<char>,
    version: Seq<char>,
) -> bool {
    &&& s == specifier_text(namespace, name, version)
    &&& valid_identifier(namespace)
    &&& valid_identifier(name)
    &&& valid_version(version)
    &&& !namespace.contains('/')
    &&& !name.contains('/')
    &&& !version.contains('/')
    &&& !name.contains(':')
    &&& !version.contains(':')
}

/// The three parts of the specifier `s`, if it is one.
pub open spec fn specifier_parts(s: Seq<char>) -> Option<(Seq<char>, Seq<char>, Seq<char>)> {
    if exists|t: (Seq<char>, Seq<char>, Seq<char>)| #[trigger] is_specifier_of(s, t.0, t.1, t.2) {
        Some(choose|t: (Seq<char>, Seq<char>, Seq<char>)| #[trigger] is_specifier_of(s, t.0, t.1, t.2))
    } else {
        None
    }
}

/// The views of three strings.
pub open spec fn parts_view(parts: (String, String, String)) -> (Seq<char>, Seq<char>, Seq<char>) {
    (parts.0@, parts.1@, parts.2@)
}

/// Whether `s` is a namespace or package name.
pub fn is_valid_identifier(s: &str) -> (r: bool)
    ensures
        r == valid_identifier(s@),
{
    let chars = chars_of(s);
    valid_identifier_chars(&chars, 0, chars.len()) && chars.len() > 0
}

/// Whether `s` is a version.
pub fn is_valid_version(s: &str) -> (r: bool)
    ensures
        r == valid_version(s@),
{
    let chars = chars_of(s);
    valid_version_chars(&chars, 0, chars.len()) && chars.len() > 0
}

/// Whether every character of `chars[from..to]` may stand in an identifier.
fn valid_identifier_chars(chars: &Vec<char>, from: usize, to: usize) -> (r: bool)
    requires
        from <= to <= chars.len(),
    ensures
        r == forall|i: int| from <= i < to ==> identifier_char(#[trigger] chars@[i]),
{
    let mut i: usize = from;
    while i < to
        invariant
            from <= i <= to <= chars.len(),
            forall|j: int| from <= j < i ==> identifier_char(#[trigger] chars@[j]),
        decreases to - i,
    {
        let c = chars[i];
        if !(c.is_alphanumeric() || c == '-' || c == '_') {
            assert(!identifier_char(chars@[i as int]));
            return false;
        }
        i = i + 1;
    }
    true
}

/// Whether every character of `chars[from..to]` may stand in a version.
fn valid_version_chars(chars: &Vec<char>, from: usize, to: usize) -> (r: bool)
    requires
        from <= to <= chars.len(),
    ensures
        r == forall|i: int| from <= i < to ==> version_char(#[trigger] chars@[i]),
{
    let mut i: usize = from;
    while i < to
        invariant
            from <= i <= to <= chars.len(),
            forall|j: int| from <= j < i ==> version_char(#[trigger] chars@[j]),
        decreases to - i,
    {
        let c = chars[i];
        if !(c.is_numeric() || c == '.') {
            assert(!version_char(chars@[i as int]));
            return false;
        }
        i = i + 1;
    }
    true
}

/// Where the parts of a specifier stand in its text.
pub proof fn lemma_specifier_shape(
    s: Seq<char>,
    namespace: Seq<char>,
    name: Seq<char>,
    version: Seq<char>,
)
    requires
        s == specifier_text(namespace, name, version),
    ensures
        ({
            let slash = 1 + namespace.len() as int;
            let colon = slash + 1 + name.len() as int;
            &&& s.len() == colon + 1 + version.len()
            &&& s[0] == '@'
            &&& s[slash] == '/'
            &&& s[colon] == ':'
            &&& namespace == s.subrange(1, slash)
            &&& name == s.subrange(slash + 1, colon)
            &&& version == s.subrange(colon + 1, s.len() as int)
        }),
{
    let slash = 1 + namespace.len() as int;
    let colon = slash + 1 + name.len() as int;
    assert(namespace =~= s.subrange(1, slash));
    assert(name =~= s.subrange(slash + 1, colon));
    assert(version =~= s.subrange(colon + 1, s.len() as int));
}

/// In a specifier, the only `/` behind the `@` is the one that ends the namespace.
proof fn lemma_slash_position(
    s: Seq<char>,
    namespace: Seq<char>,
    name: Seq<char>,
    version: Seq<char>,
    at: int,
)
    requires
        is_specifier_of(s, namespace, name, version),
        1 <= at < s.len(),
        s[at] == '/',
    ensures
        at == 1 + namespace.len(),
{
    lemma_specifier_shape(s, namespace, name, version);
    let slash = 1 + namespace.len() as int;
    let colon = slash + 1 + name.len() as int;
    if at < slash {
        assert(namespace[at - 1] == s[at]);
        assert(namespace.contains('/'));
    } else if slash < at < colon {
        assert(name[at - slash - 1] == s[at]);
        assert(name.contains('/'));
    } else if at > colon {
        assert(version[at - colon - 1] == s[at]);
        assert(version.contains('/'));
    }
}

/// In a specifier, the only `:` behind the `/` is the one that ends the name.
proof fn lemma_colon_position(
    s: Seq<char>,
    namespace: Seq<char>,
    name: Seq<char>,
    version: Seq<char>,
    at: int,
)
    requires
        is_specifier_of(s, namespace, name, version),
        1 + namespace.len() < at < s.len(),
        s[at] == ':',
    ensures
        at == 2 + namespace.len() + name.len(),
{
    lemma_specifier_shape(s, namespace, name, version);
    let slash = 1 + namespace.len() as int;
    let colon = slash + 1 + name.len() as int;
    if at < colon {
        assert(name[at - slash - 1] == s[at]);
        assert(name.contains(':'));
    } else if at > colon {
        assert(version[at - colon - 1] == s[at]);
        assert(version.contains(':'));
    }
}

/// A text is the specifier of one package at most.
pub proof fn lemma_specifier_is_unique(
    s: Seq<char>,
    a: (Seq<char>, Seq<char>, Seq<char>),
    b: (Seq<char>, Seq<char>, Seq<char>),
)
    requires
        is_specifier_of(s, a.0, a.1, a.2),
        is_specifier_of(s, b.0, b.1, b.2),
    ensures
        a == b,
{
    lemma_specifier_shape(s, a.0, a.1, a.2);
    lemma_specifier_shape(s, b.0, b.1, b.2);
    lemma_slash_position(s, a.0, a.1, a.2, 1 + b.0.len() as int);
    lemma_colon_position(s, a.0, a.1, a.2, 2 + b.0.len() as int + b.1.len() as int);
}

/// The three parts of the package specifier `path`, if it is one.
pub fn parse_package_specifier(path: &str) -> (r: Option<(String, String, String)>)
    ensures
        match r {
            Some(parts) => is_specifier_of(path@, parts.0@, parts.1@, parts.2@)
                && specifier_parts(path@) == Some(parts_view(parts)),
            None => specifier_parts(path@) is None && forall|
                namespace: Seq<char>,
                name: Seq<char>,
                version: Seq<char>,
            | !is_specifier_of(path@, namespace, name, version),
        },
{
    let chars = chars_of(path);
    let n = chars.len();
    let ghost s = path@;
    // Package imports start with `@`.
    if n == 0 || chars[0] != '@' {
        assert forall|a: Seq<char>, b: Seq<char>, c: Seq<char>| !is_specifier_of(s, a, b, c) by {
            if is_specifier_of(s, a, b, c) {
                lemma_specifier_shape(s, a, b, c);
            }
        }
        return None;
    }
    // Exactly one `/`, between namespace and name.
    let slash = find_from(&chars, 1, '/');
    if slash == n {
        assert forall|a: Seq<char>, b: Seq<char>, c: Seq<char>| !is_specifier_of(s, a, b, c) by {
            if is_specifier_of(s, a, b, c) {
                lemma_specifier_shape(s, a, b, c);
                assert(s[1 + a.len() as int] == '/');
            }
        }
        return None;
    }
    let second_slash = find_from(&chars, slash + 1, '/');
    if second_slash < n {
        assert forall|a: Seq<char>, b: Seq<char>, c: Seq<char>| !is_specifier_of(s, a, b, c) by {
            if is_specifier_of(s, a, b, c) {
                lemma_slash_position(s, a, b, c, slash as int);
                lemma_slash_position(s, a, b, c, second_slash as int);
            }
        }
        return None;
    }
    // Exactly one `:` behind it, between name and version.
    let colon = find_from(&chars, slash + 1, ':');
    if colon == n {
        assert forall|a: Seq<char>, b: Seq<char>, c: Seq<char>| !is_specifier_of(s, a, b, c) by {
            if is_specifier_of(s, a, b, c) {
                lemma_specifier_shape(s, a, b, c);
                lemma_slash_position(s, a, b, c, slash as int);
                assert(s[slash + 1 + b.len() as int] == ':');
            }
        }
        return None;
    }
    let second_colon = find_from(&chars, colon + 1, ':');
    if second_colon < n {
        assert forall|a: Seq<char>, b: Seq<char>, c: Seq<char>| !is_specifier_of(s, a, b, c) by {
            if is_specifier_of(s, a, b, c) {
                lemma_slash_position(s, a, b, c, slash as int);
                lemma_colon_position(s, a, b, c, colon as int);
                lemma_colon_position(s, a, b, c, second_colon as int);
            }
        }
        return None;
    }
    let ghost namespace = s.subrange(1, slash as int);
    let ghost name = s.subrange(slash + 1, colon as int);
    let ghost version = s.subrange(colon + 1, n as int);
    let valid = slash > 1 && valid_identifier_chars(&chars, 1, slash) && colon > slash + 1
        && valid_identifier_chars(&chars, slash + 1, colon) && n > colon + 1
        && valid_version_chars(&chars, colon + 1, n);
    proof {
        assert(s =~= specifier_text(namespace, name, version));
        assert(valid_identifier(namespace) == (slash > 1 && forall|i: int|
            1 <= i < slash ==> identifier_char(#[trigger] s[i]))) by {
            if valid_identifier(namespace) {
                assert forall|i: int| 1 <= i < slash implies identifier_char(
                    #[trigger] s[i],
                ) by {
                    assert(identifier_char(namespace[i - 1]));
                }
            }
        }
        assert(valid_identifier(name) == (colon > slash + 1 && forall|i: int|
            slash + 1 <= i < colon ==> identifier_char(#[trigger] s[i]))) by {
            if valid_identifier(name) {
                assert forall|i: int| slash + 1 <= i < colon implies identifier_char(
                    #[trigger] s[i],
                ) by {
                    assert(identifier_char(name[i - slash - 1]));
                }
            }
        }
        assert(valid_version(version) == (n > colon + 1 && forall|i: int|
            colon + 1 <= i < n ==> version_char(#[trigger] s[i]))) by {
            if valid_version(version) {
                assert forall|i: int| colon + 1 <= i < n implies version_char(#[trigger] s[i]) by {
                    assert(version_char(version[i - colon - 1]));
                }
            }
        }
    }
    if !valid {
        assert forall|a: Seq<char>, b: Seq<char>, c: Seq<char>| !is_specifier_of(s, a, b, c) by {
            if is_specifier_of(s, a, b, c) {
                lemma_specifier_shape(s, a, b, c);
                lemma_slash_position(s, a, b, c, slash as int);
                lemma_colon_position(s, a, b, c, colon as int);
            }
        }
        return None;
    }
    proof {
        let found = (namespace, name, version);
        assert(!namespace.contains('/') && !name.contains('/') && !version.contains('/')
            && !name.contains(':') && !version.contains(':'));
        assert(is_specifier_of(s, found.0, found.1, found.2));
        let chosen = choose|t: (Seq<char>, Seq<char>, Seq<char>)|
            #[trigger] is_specifier_of(s, t.0, t.1, t.2);
        lemma_specifier_is_unique(s, chosen, found);
    }
    Some(
        (
            string_of(&chars, 1, slash),
            string_of(&chars, slash + 1, colon),
            string_of(&chars, colon + 1, n),
        ),
    )
}

} // verus!
