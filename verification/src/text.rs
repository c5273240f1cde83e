//! Helpers on strings, stated over their `Seq<char>` views.

use vstd::prelude::*;

verus! {

/// What `char::is_alphanumeric` answers for `c`.
pub uninterp spec fn char_is_alphanumeric(c: char) -> bool;

/// What `char::is_numeric` answers for `c`.
pub uninterp spec fn char_is_numeric(c: char) -> bool;

/// `char::is_alphanumeric` is a fixed property of the character: its answer
/// is the one that [`char_is_alphanumeric`] names.
pub assume_specification[ char::is_alphanumeric ](c: char) -> (r: bool)
    ensures
        r == char_is_alphanumeric(c),
;

/// `char::is_numeric` is a fixed property of the character: its answer is the
/// one that [`char_is_numeric`] names.
pub assume_specification[ char::is_numeric ](c: char) -> (r: bool)
    ensures
        r == char_is_numeric(c),
;

/// `String::push` appends the character to the end of the string.
pub assume_specification[ String::push ](s: &mut String, c: char)
    ensures
        final(s)@ == old(s)@.push(c),
;

/// `s` without its leading run of the character `c`.
pub open spec fn without_leading(s: Seq<char>, c: char) -> Seq<char>
    decreases s.len(),
{
    if s.len() > 0 && s[0] == c {
        without_leading(s.drop_first(), c)
    } else {
        s
    }
}

/// `s` with every `from` replaced by `to`.
pub open spec fn replaced(s: Seq<char>, from: char, to: char) -> Seq<char> {
    Seq::new(
        s.len(),
        |i: int|
            if s[i] == from {
                to
            } else {
                s[i]
            },
    )
}

/// The characters of `s`, in order.
pub fn chars_of(s: &str) -> (v: Vec<char>)
    ensures
        v@ == s@,
{
    let mut v: Vec<char> = Vec::new();
    for c in it: s.chars()
        invariant
            it.seq() == s@,
            v@ == it.seq().take(it.index() as int),
    {
        v.push(c);
    }
    assert(v@ == s@);
    v
}

/// The string made of `chars[from..to]`.
pub(crate) fn string_of(chars: &Vec<char>, from: usize, to: usize) -> (r: String)
    requires
        from <= to <= chars.len(),
    ensures
        r@ == chars@.subrange(from as int, to as int),
{
    let mut r = String::new();
    let mut i: usize = from;
    while i < to
        invariant
            from <= i <= to <= chars.len(),
            r@ == chars@.subrange(from as int, i as int),
        decreases to - i,
    {
        r.push(chars[i]);
        assert(chars@.subrange(from as int, i + 1) =~= chars@.subrange(from as int, i as int).push(
            chars@[i as int],
        ));
        i = i + 1;
    }
    r
}

/// Whether two strings hold the same characters.
pub fn str_eq(a: &str, b: &str) -> (r: bool)
    ensures
        r == (a@ == b@),
{
    let x = chars_of(a);
    let y = chars_of(b);
    if x.len() != y.len() {
        return false;
    }
    let mut i: usize = 0;
    while i < x.len()
        invariant
            i <= x.len(),
            x.len() == y.len(),
            x@ == a@,
            y@ == b@,
            forall|j: int| 0 <= j < i ==> x@[j] == y@[j],
        decreases x.len() - i,
    {
        if x[i] != y[i] {
            return false;
        }
        i = i + 1;
    }
    assert(x@ =~= y@);
    true
}

/// The index of the first `c` in `chars[from..]`, or `chars.len()` if there is none.
pub(crate) fn find_from(chars: &Vec<char>, from: usize, c: char) -> (r: usize)
    requires
        from <= chars.len(),
    ensures
        from <= r <= chars.len(),
        forall|j: int| from <= j < r ==> chars@[j] != c,
        r < chars.len() ==> chars@[r as int] == c,
{
    let mut i: usize = from;
    while i < chars.len()
        invariant
            from <= i <= chars.len(),
            forall|j: int| from <= j < i ==> chars@[j] != c,
        decreases chars.len() - i,
    {
        if chars[i] == c {
            return i;
        }
        i = i + 1;
    }
    i
}

/// `s` without the leading run of `c`: what `str::trim_start_matches` gives
/// for a single-character pattern.
pub fn trim_leading(s: &str, c: char) -> (r: String)
    ensures
        r@ == without_leading(s@, c),
{
    let chars = chars_of(s);
    let mut k: usize = 0;
    assert(chars@.subrange(0, chars.len() as int) =~= chars@);
    while k < chars.len() && chars[k] == c
        invariant
            k <= chars.len(),
            without_leading(chars@, c) == without_leading(
                chars@.subrange(k as int, chars.len() as int),
                c,
            ),
        decreases chars.len() - k,
    {
        let ghost rest = chars@.subrange(k as int, chars.len() as int);
        assert(rest.drop_first() =~= chars@.subrange(k + 1, chars.len() as int));
        k = k + 1;
    }
    string_of(&chars, k, chars.len())
}

/// `s` with every `from` replaced by `to`.
pub fn replace_char(s: &str, from: char, to: char) -> (r: String)
    ensures
        r@ == replaced(s@, from, to),
{
    let chars = chars_of(s);
    let mut r = String::new();
    let mut i: usize = 0;
    while i < chars.len()
        invariant
            i <= chars.len(),
            chars@ == s@,
            r@ == replaced(s@, from, to).take(i as int),
        decreases chars.len() - i,
    {
        let c = chars[i];
        if c == from {
            r.push(to);
        } else {
            r.push(c);
        }
        assert(replaced(s@, from, to).take(i + 1) =~= replaced(s@, from, to).take(i as int).push(
            replaced(s@, from, to)[i as int],
        ));
        i = i + 1;
    }
    assert(replaced(s@, from, to).take(chars.len() as int) =~= replaced(s@, from, to));
    r
}

} // verus!
