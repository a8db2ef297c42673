//! Text helpers: character-wise comparison, lower-casing and the
//! extension of a path's final component.
use vstd::prelude::*;
use vstd::string::StrSliceExecFns;

verus! {

/// Whether two strings hold the same characters.
pub fn str_eq(a: &str, b: &str) -> (r: bool)
    ensures
        r == (a@ == b@),
{
    let n = a.unicode_len();
    if n != b.unicode_len() {
        return false;
    }
    let mut i: usize = 0;
    while i < n
        invariant
            n == a@.len(),
            n == b@.len(),
            i <= n,
            forall|j: int| 0 <= j < i ==> a@[j] == b@[j],
        decreases n - i,
    {
        if a.get_char(i) != b.get_char(i) {
            return false;
        }
        i = i + 1;
    }
    assert(a@ =~= b@);
    true
}

/// The lower-case form of a string, character by character as Unicode
/// defines it.
pub uninterp spec fn lower_of(s: Seq<char>) -> Seq<char>;

/// Relies on `str::to_lowercase`: the result depends on the characters
/// alone.
#[verifier::external_body]
pub(crate) fn to_lowercase(s: &str) -> (r: String)
    ensures
        r@ == lower_of(s@),
{
    s.to_lowercase()
}

/// Where the final component of path `s` ends: trailing separators and
/// trailing `.` components do not belong to it, as `Path::components`
/// drops them.
pub open spec fn component_end(s: Seq<char>) -> int
    decreases s.len(),
{
    if s.len() > 1 && s.last() == '/' {
        component_end(s.drop_last())
    } else if s.len() > 1 && s.last() == '.' && s[s.len() - 2] == '/' {
        component_end(s.drop_last())
    } else {
        s.len() as int
    }
}

/// The path up to the end of its final component.
pub open spec fn trimmed(s: Seq<char>) -> Seq<char> {
    s.subrange(0, component_end(s))
}

/// Whether position `i` of `s` (a path up to the end of its final
/// component) holds the dot that starts the extension: the last dot of the
/// final component, not its first character, and the component is not `..`.
pub open spec fn is_extension_dot(s: Seq<char>, i: int) -> bool {
    &&& 0 < i < s.len()
    &&& s[i] == '.'
    &&& s[i - 1] != '/'
    &&& forall|j: int| i < j < s.len() ==> s[j] != '.' && s[j] != '/'
    &&& !(i + 1 == s.len() && s[i - 1] == '.' && (i == 1 || s[i - 2] == '/'))
}

/// The extension of a path: what follows the extension dot of its final
/// component, if there is one, as `Path::extension` gives it.
pub open spec fn path_extension(s: Seq<char>) -> Option<Seq<char>> {
    let t = trimmed(s);
    if exists|i: int| is_extension_dot(t, i) {
        let i = choose|i: int| is_extension_dot(t, i);
        Some(t.subrange(i + 1, t.len() as int))
    } else {
        None
    }
}

/// A path has at most one extension dot.
pub proof fn lemma_extension_dot_unique(s: Seq<char>, i: int, k: int)
    requires
        is_extension_dot(s, i),
        is_extension_dot(s, k),
    ensures
        i == k,
{
    if i < k {
        assert(s[k] != '.');
    } else if k < i {
        assert(s[i] != '.');
    }
}

/// Finds where the final component of a path ends.
fn component_end_of(path: &str) -> (r: usize)
    ensures
        r as int == component_end(path@),
        r <= path@.len(),
{
    let n = path.unicode_len();
    let mut e: usize = n;
    assert(path@.subrange(0, n as int) =~= path@);
    loop
        invariant
            e <= n,
            n == path@.len(),
            component_end(path@.subrange(0, e as int)) == component_end(path@),
        decreases e,
    {
        let t = Ghost(path@.subrange(0, e as int));
        if e > 1 && path.get_char(e - 1) == '/' {
            assert(t@.drop_last() =~= path@.subrange(0, e - 1));
            e = e - 1;
        } else if e > 1 && path.get_char(e - 1) == '.' && path.get_char(e - 2) == '/' {
            assert(t@.drop_last() =~= path@.subrange(0, e - 1));
            e = e - 1;
        } else {
            return e;
        }
    }
}

/// Finds the extension dot of a path that ends with its final component.
fn extension_dot(path: &str) -> (r: Option<usize>)
    ensures
        r is Some ==> is_extension_dot(path@, r->Some_0 as int),
        r is None ==> forall|i: int| !is_extension_dot(path@, i),
{
    let n = path.unicode_len();
    let mut k: usize = n;
    while k > 0
        invariant
            k <= n,
            n == path@.len(),
            forall|j: int| k <= j < n ==> path@[j] != '.' && path@[j] != '/',
        decreases k,
    {
        let c = path.get_char(k - 1);
        if c == '/' {
            assert forall|i: int| !is_extension_dot(path@, i) by {
                if is_extension_dot(path@, i) && i < k - 1 {
                    assert(path@[k - 1] != '/');
                }
            }
            return None;
        }
        if c == '.' {
            if k - 1 == 0 || path.get_char(k - 2) == '/' || (k == n && path.get_char(k - 2) == '.'
                && (k - 2 == 0 || path.get_char(k - 3) == '/')) {
                assert forall|i: int| !is_extension_dot(path@, i) by {
                    if is_extension_dot(path@, i) && i < k - 1 {
                        assert(path@[k - 1] != '.');
                    }
                }
                return None;
            }
            return Some(k - 1);
        }
        k = k - 1;
    }
    None
}

/// The extension of a path's final component, as `Path::extension` finds
/// it.
pub fn extension_of(path: &str) -> (r: Option<&str>)
    ensures
        r is Some <==> path_extension(path@) is Some,
        r is Some ==> r->Some_0@ == path_extension(path@)->Some_0,
{
    let end = component_end_of(path);
    let name = path.substring_char(0, end);
    assert(name@ == trimmed(path@));
    let n = name.unicode_len();
    match extension_dot(name) {
        Some(i) => {
            proof {
                let k = choose|k: int| is_extension_dot(name@, k);
                lemma_extension_dot_unique(name@, i as int, k);
            }
            Some(name.substring_char(i + 1, n))
        },
        None => None,
    }
}

/// A path without its extension and the extension's dot, as
/// `Path::with_extension("")` gives it; a path without an extension stays
/// as it is.
pub open spec fn path_without_extension(s: Seq<char>) -> Seq<char> {
    let t = trimmed(s);
    if exists|i: int| is_extension_dot(t, i) {
        let i = choose|i: int| is_extension_dot(t, i);
        t.subrange(0, i)
    } else {
        s
    }
}

/// Removes the extension of a path's final component, with its dot.
pub fn strip_extension(path: &str) -> (r: &str)
    ensures
        r@ == path_without_extension(path@),
{
    let end = component_end_of(path);
    let name = path.substring_char(0, end);
    assert(name@ == trimmed(path@));
    match extension_dot(name) {
        Some(i) => {
            proof {
                let k = choose|k: int| is_extension_dot(name@, k);
                lemma_extension_dot_unique(name@, i as int, k);
            }
            name.substring_char(0, i)
        },
        None => path,
    }
}

} // verus!
