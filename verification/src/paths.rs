//! Paths as text: how the directory that receives the sources is found
//! inside a jail.
//!
//! The build recipes live in the service's working directory, and the
//! overlay shows the whole host root inside the jail, so the recipes are
//! reached inside the jail under the same path they have outside.

use vstd::prelude::*;

verus! {

/// `rel` below `dir`; `dir` itself where `rel` is empty.
pub open spec fn inside(dir: Seq<char>, rel: Seq<char>) -> Seq<char> {
    if rel.len() == 0 {
        dir
    } else {
        dir + "/"@ + rel
    }
}

/// Whether `path` is `dir` or lies below it.
pub open spec fn is_within(path: Seq<char>, dir: Seq<char>) -> bool {
    path == dir || (path.len() > dir.len() && path.subrange(0, dir.len() as int) == dir
        && path[dir.len() as int] == '/')
}

/// Whether `cwd` is an absolute path.
pub open spec fn is_absolute(cwd: Seq<char>) -> bool {
    cwd.len() > 0 && cwd[0] == '/'
}

/// Where the sources of a run go: the working directory `cwd`, without its
/// leading slash, below the jail root `chroot`, and `subdir` below that.
/// There is no such place unless `cwd` is absolute.
pub open spec fn sources_path(chroot: Seq<char>, cwd: Seq<char>, subdir: Seq<char>) -> Option<
    Seq<char>,
> {
    if is_absolute(cwd) {
        Some(inside(inside(chroot, cwd.skip(1)), subdir))
    } else {
        None
    }
}

/// `head` followed by `tail`.
pub(crate) fn join(head: &str, tail: &str) -> (s: String)
    ensures
        s@ == head@ + tail@,
{
    let mut s = String::from_str(head);
    s.append(tail);
    s
}

/// The path of `rel` below `dir`.
pub fn child_path(dir: &str, rel: &str) -> (path: String)
    ensures
        path@ == inside(dir@, rel@),
{
    if rel.is_empty() {
        String::from_str(dir)
    } else {
        let mut path = join(dir, "/");
        path.append(rel);
        path
    }
}

/// The directory inside the jail that receives the sources, or `None`
/// where the working directory is not an absolute path.
pub fn check_path(chroot: &str, cwd: &str, subdir: &str) -> (path: Option<String>)
    ensures
        path is Some <==> is_absolute(cwd@),
        path matches Some(p) ==> sources_path(chroot@, cwd@, subdir@) == Some(p@),
{
    let n = cwd.unicode_len();
    if n == 0 || cwd.get_char(0) != '/' {
        return None;
    }
    let rel = cwd.substring_char(1, n);
    assert(rel@ =~= cwd@.skip(1));
    let dir = child_path(chroot, rel);
    Some(child_path(dir.as_str(), subdir))
}

/// A path below a directory is within it.
pub proof fn lemma_inside_is_within(dir: Seq<char>, rel: Seq<char>)
    ensures
        is_within(inside(dir, rel), dir),
{
    reveal_strlit("/");
    if rel.len() > 0 {
        let path = dir + "/"@ + rel;
        assert(path.subrange(0, dir.len() as int) =~= dir);
    }
}

/// What is within a directory is within every directory that one is
/// within.
pub proof fn lemma_within_transitive(path: Seq<char>, mid: Seq<char>, dir: Seq<char>)
    requires
        is_within(path, mid),
        is_within(mid, dir),
    ensures
        is_within(path, dir),
{
    if path != mid && mid != dir {
        assert(path.subrange(0, dir.len() as int) =~= mid.subrange(0, dir.len() as int)) by {
            assert(path.subrange(0, mid.len() as int).subrange(0, dir.len() as int)
                =~= path.subrange(0, dir.len() as int));
        }
        assert(path[dir.len() as int] == path.subrange(0, mid.len() as int)[dir.len() as int]);
    }
}

/// The sources of a run are written within the jail root, whatever the
/// working directory.
pub proof fn lemma_sources_within_jail(chroot: Seq<char>, cwd: Seq<char>, subdir: Seq<char>)
    requires
        is_absolute(cwd),
    ensures
        is_within(sources_path(chroot, cwd, subdir)->0, chroot),
{
    let dir = inside(chroot, cwd.skip(1));
    lemma_inside_is_within(chroot, cwd.skip(1));
    lemma_inside_is_within(dir, subdir);
    lemma_within_transitive(inside(dir, subdir), dir, chroot);
}

} // verus!
