use vstd::prelude::*;

verus! {

/// The path that `std::path::Path::join` builds from a base and a further path.
pub uninterp spec fn path_join(base: Seq<char>, rest: Seq<char>) -> Seq<char>;

/// The path that `std::path::Path::parent` gives for a path, if it has one.
pub uninterp spec fn path_parent(p: Seq<char>) -> Option<Seq<char>>;

/// Whether `std::path::Path`'s equality, which compares components, holds of two paths.
pub uninterp spec fn path_eq(a: Seq<char>, b: Seq<char>) -> bool;

/// Relies on `std::path::Path::join`: the base with the further path appended
/// (or the further path alone where it is absolute). Both inputs are UTF-8, so
/// the lossy conversion back to a string keeps every character.
#[verifier::external_body]
pub(crate) fn join_path(base: &str, rest: &str) -> (r: String)
    ensures
        r@ == path_join(base@, rest@),
{
    std::path::Path::new(base).join(rest).to_string_lossy().into_owned()
}

/// Relies on `std::path::Path::parent`: the path without its final component.
#[verifier::external_body]
pub(crate) fn parent_path(p: &str) -> (r: Option<String>)
    ensures
        r.deep_view() == path_parent(p@),
{
    std::path::Path::new(p).parent().map(|q| q.to_string_lossy().into_owned())
}

/// Relies on `PartialEq` for `std::path::Path`, which compares the paths' components.
#[verifier::external_body]
pub(crate) fn same_path(a: &str, b: &str) -> (r: bool)
    ensures
        r == path_eq(a@, b@),
{
    std::path::Path::new(a) == std::path::Path::new(b)
}

/// Whether a path string ends in the path separator.
pub open spec fn ends_with_separator(p: Seq<char>) -> bool {
    p.len() > 0 && p.last() == '/'
}

/// A path string with all its leading separators removed.
pub open spec fn without_leading_separators(p: Seq<char>) -> Seq<char>
    decreases p.len(),
{
    if p.len() > 0 && p[0] == '/' {
        without_leading_separators(p.skip(1))
    } else {
        p
    }
}

/// Whether `s` begins with `pre`.
pub open spec fn has_prefix(s: Seq<char>, pre: Seq<char>) -> bool {
    pre.len() <= s.len() && s.take(pre.len() as int) == pre
}

/// Whether a path string ends in the path separator.
pub fn ends_with_slash(p: &str) -> (r: bool)
    ensures
        r == ends_with_separator(p@),
{
    let n = p.unicode_len();
    n > 0 && p.get_char(n - 1) == '/'
}

/// The path string without its leading separators.
pub fn strip_leading_slash(p: &str) -> (r: &str)
    ensures
        r@ == without_leading_separators(p@),
{
    let n = p.unicode_len();
    let mut i: usize = 0;
    assert(p@.skip(0) =~= p@);
    while i < n && p.get_char(i) == '/'
        invariant
            n == p@.len(),
            i <= n,
            without_leading_separators(p@.skip(i as int)) == without_leading_separators(p@),
        decreases n - i,
    {
        assert(p@.skip(i as int).skip(1) =~= p@.skip(i as int + 1));
        i = i + 1;
    }
    let r = p.substring_char(i, n);
    assert(r@ =~= p@.skip(i as int));
    assert(i < n ==> r@[0] == p@[i as int]);
    r
}

/// Whether the characters of `pat` stand in `s` from position `at` on.
pub(crate) fn matches_at(s: &str, pat: &str, at: usize) -> (r: bool)
    requires
        at + pat@.len() <= s@.len(),
    ensures
        r == (s@.subrange(at as int, at + pat@.len()) == pat@),
{
    let n = s.unicode_len();
    let m = pat.unicode_len();
    let mut j: usize = 0;
    while j < m
        invariant
            n == s@.len(),
            m == pat@.len(),
            at + m <= s@.len(),
            j <= m,
            forall|k: int| 0 <= k < j ==> s@[at + k] == pat@[k],
        decreases m - j,
    {
        if s.get_char(at + j) != pat.get_char(j) {
            assert(s@.subrange(at as int, at + m)[j as int] != pat@[j as int]);
            return false;
        }
        j = j + 1;
    }
    assert(s@.subrange(at as int, at + m) =~= pat@);
    true
}

/// Whether `s` begins with `pre`.
pub fn starts_with(s: &str, pre: &str) -> (r: bool)
    ensures
        r == has_prefix(s@, pre@),
{
    let n = s.unicode_len();
    let m = pre.unicode_len();
    if m > n {
        return false;
    }
    let r = matches_at(s, pre, 0);
    assert(s@.subrange(0, m as int) == s@.take(m as int));
    r
}

} // verus!
