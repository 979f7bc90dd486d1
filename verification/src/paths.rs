//! Paths as plain text, with `/` as the separator.

use vstd::prelude::*;
use vstd::string::*;

verus! {

/// Whether a path starts at the filesystem root.
pub open spec fn absolute(path: Seq<char>) -> bool {
    path.len() > 0 && path[0] == '/'
}

/// The path that names `name` below `base`. An absolute `name` stands for
/// itself; otherwise exactly one separator comes between the two, unless
/// `base` is empty or already ends in one.
pub open spec fn joined(base: Seq<char>, name: Seq<char>) -> Seq<char> {
    if absolute(name) {
        name
    } else if base.len() == 0 || base.last() == '/' {
        base + name
    } else {
        base + seq!['/'] + name
    }
}

/// A path without what stands idle at its end: separators, and a `.` that
/// follows a separator.
pub open spec fn trimmed(path: Seq<char>) -> Seq<char>
    decreases path.len(),
{
    let n = path.len() as int;
    if n >= 1 && path[n - 1] == '/' {
        trimmed(path.subrange(0, n - 1))
    } else if n >= 2 && path[n - 1] == '.' && path[n - 2] == '/' {
        trimmed(path.subrange(0, n - 2))
    } else {
        path
    }
}

/// Whether the last component of a trimmed path is `xtask`.
pub open spec fn ends_in_xtask(path: Seq<char>) -> bool {
    let n = path.len() as int;
    n >= 5 && path.subrange(n - 5, n) == "xtask"@ && (n == 5 || path[n - 6] == '/')
}

/// The project that a build directory belongs to. The build tool may be
/// started from its own `xtask` directory inside the project; the project is
/// then one level up: the directory without that last component and without
/// the separators before it, or the root where nothing else is left of an
/// absolute path. Separators and `.` components at the end of the directory
/// do not count. Any other directory is the project itself, as it is written.
pub open spec fn project_root_of(dir: Seq<char>) -> Seq<char> {
    let whole = trimmed(dir);
    if ends_in_xtask(whole) {
        let head = whole.subrange(0, whole.len() - 5);
        let parent = trimmed(head);
        if parent.len() == 0 && head.len() > 0 {
            seq!['/']
        } else {
            parent
        }
    } else {
        dir
    }
}

/// How much of the first `len` characters of a path is left when they are
/// trimmed.
fn trimmed_len(path: &str, len: usize) -> (kept: usize)
    requires
        len <= path@.len(),
    ensures
        kept <= len,
        path@.subrange(0, kept as int) == trimmed(path@.subrange(0, len as int)),
{
    let mut kept: usize = len;
    let mut more: bool = true;
    while more
        invariant
            kept <= len <= path@.len(),
            trimmed(path@.subrange(0, kept as int)) == trimmed(path@.subrange(0, len as int)),
            !more ==> trimmed(path@.subrange(0, kept as int)) == path@.subrange(0, kept as int),
        decreases kept + (if more { 1nat } else { 0nat }),
    {
        let ghost here = path@.subrange(0, kept as int);
        if kept >= 1 && path.get_char(kept - 1) == '/' {
            assert(here.subrange(0, kept - 1) =~= path@.subrange(0, kept - 1));
            kept = kept - 1;
        } else if kept >= 2 && path.get_char(kept - 1) == '.' && path.get_char(kept - 2) == '/' {
            assert(here.subrange(0, kept - 2) =~= path@.subrange(0, kept - 2));
            kept = kept - 2;
        } else {
            more = false;
        }
    }
    kept
}

/// The root of the project that the tool was started in.
pub fn project_root(dir: &str) -> (root: String)
    ensures
        root@ == project_root_of(dir@),
{
    proof {
        reveal_strlit("/");
        assert("/"@ =~= seq!['/']);
    }
    let n: usize = dir.unicode_len();
    assert(dir@.subrange(0, n as int) =~= dir@);
    let end: usize = trimmed_len(dir, n);
    let ghost whole = dir@.subrange(0, end as int);
    if end >= 5 && String::from_str(dir.substring_char(end - 5, end)) == String::from_str("xtask")
        && (end == 5 || dir.get_char(end - 6) == '/') {
        let head: usize = end - 5;
        assert(whole.subrange(end - 5, end as int) =~= dir@.subrange(end - 5, end as int));
        assert(whole.subrange(0, head as int) =~= dir@.subrange(0, head as int));
        let kept: usize = trimmed_len(dir, head);
        if kept == 0 && head > 0 {
            String::from_str("/")
        } else {
            String::from_str(dir.substring_char(0, kept))
        }
    } else {
        assert(end >= 5 ==> whole.subrange(end - 5, end as int) =~= dir@.subrange(
            end - 5,
            end as int,
        ));
        String::from_str(dir)
    }
}

/// Whether the path starts at the filesystem root.
pub fn is_absolute(path: &str) -> (yes: bool)
    ensures
        yes == absolute(path@),
{
    let n: usize = path.unicode_len();
    n > 0 && path.get_char(0) == '/'
}

/// The path of `name` below `base`.
pub fn join(base: &str, name: &str) -> (path: String)
    ensures
        path@ == joined(base@, name@),
{
    if is_absolute(name) {
        return String::from_str(name);
    }
    let n: usize = base.unicode_len();
    if n == 0 || base.get_char(n - 1) == '/' {
        String::from_str(base).concat(name)
    } else {
        proof {
            reveal_strlit("/");
            assert("/"@ =~= seq!['/']);
        }
        String::from_str(base).concat("/").concat(name)
    }
}

} // verus!
