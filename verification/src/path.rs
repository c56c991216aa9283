//! Absolutization of slash-separated paths against a working directory,
//! and the backslash-separated full-path form used with mapped network
//! drives.
//!
//! A path here is plain text: the crate does not normalize `.` or `..`
//! components, exactly as the native client does not. What it guarantees is
//! how a request path and the tracked working directory combine into the
//! path actually sent to the server.

use vstd::prelude::*;

verus! {

/// Whether a slash-separated path is absolute: non-empty and rooted at `/`.
pub open spec fn spec_is_absolute(s: Seq<char>) -> bool {
    s.len() > 0 && s[0] == '/'
}

/// Whether a backslash-separated path is rooted: non-empty and starting
/// with `\`.
pub open spec fn spec_is_rooted(s: Seq<char>) -> bool {
    s.len() > 0 && s[0] == '\\'
}

/// A directory and a relative path, joined with `/` unless the directory
/// already ends with one.
pub open spec fn spec_join(dir: Seq<char>, rel: Seq<char>) -> Seq<char> {
    if dir.len() > 0 && dir.last() == '/' {
        dir + rel
    } else {
        dir + seq!['/'] + rel
    }
}

/// The path sent to the server for a request `target` while the working
/// directory is `wrkdir`: `target` itself when it is already absolute, and
/// `target` joined under `wrkdir` otherwise. An empty working directory
/// leaves a relative target unchanged.
pub open spec fn spec_absolutize(wrkdir: Seq<char>, target: Seq<char>) -> Seq<char> {
    if spec_is_absolute(target) {
        target
    } else if wrkdir.len() == 0 {
        target
    } else {
        spec_join(wrkdir, target)
    }
}

/// Whether a slash-separated path is absolute.
pub fn is_absolute_path(s: &str) -> (r: bool)
    ensures
        r == spec_is_absolute(s@),
{
    let n = s.unicode_len();
    if n == 0 {
        false
    } else {
        s.get_char(0) == '/'
    }
}

/// Join a relative path under a directory, inserting `/` unless the
/// directory already ends with one.
pub fn join_path(dir: &str, rel: &str) -> (r: String)
    ensures
        r@ == spec_join(dir@, rel@),
{
    proof {
        reveal_strlit("/");
    }
    let mut r = String::from_str(dir);
    let n = dir.unicode_len();
    if n == 0 || dir.get_char(n - 1) != '/' {
        r.append("/");
        proof {
            assert(r@ =~= dir@ + seq!['/']);
        }
    }
    r.append(rel);
    proof {
        assert(r@ =~= spec_join(dir@, rel@));
    }
    r
}

/// The path sent to the server for `target` while the working directory is
/// `wrkdir`.
pub fn absolutize(wrkdir: &str, target: &str) -> (r: String)
    ensures
        r@ == spec_absolutize(wrkdir@, target@),
{
    if is_absolute_path(target) {
        String::from_str(target)
    } else if wrkdir.unicode_len() == 0 {
        String::from_str(target)
    } else {
        join_path(wrkdir, target)
    }
}

/// Absolutizing against an absolute working directory always yields an
/// absolute path.
pub proof fn lemma_absolutize_absolute(wrkdir: Seq<char>, target: Seq<char>)
    requires
        spec_is_absolute(wrkdir),
    ensures
        spec_is_absolute(spec_absolutize(wrkdir, target)),
{
    if !spec_is_absolute(target) {
        assert(spec_join(wrkdir, target)[0] == wrkdir[0]);
    }
}

/// Absolutizing is idempotent: a path already sent through
/// [`spec_absolutize`] comes back unchanged.
pub proof fn lemma_absolutize_idempotent(wrkdir: Seq<char>, target: Seq<char>)
    requires
        spec_is_absolute(wrkdir),
    ensures
        spec_absolutize(wrkdir, spec_absolutize(wrkdir, target)) == spec_absolutize(
            wrkdir,
            target,
        ),
{
    lemma_absolutize_absolute(wrkdir, target);
}

/// A name placed under a backslash-separated directory, inserting `\`
/// unless the directory already ends with one.
pub open spec fn spec_backslash_join(dir: Seq<char>, name: Seq<char>) -> Seq<char> {
    if dir.len() > 0 && dir.last() == '\\' {
        dir + name
    } else {
        dir + seq!['\\'] + name
    }
}

/// Place a name under a backslash-separated directory.
pub fn backslash_join(dir: &str, name: &str) -> (r: String)
    ensures
        r@ == spec_backslash_join(dir@, name@),
{
    proof {
        reveal_strlit("\\");
    }
    let mut r = String::from_str(dir);
    let n = dir.unicode_len();
    if n == 0 || dir.get_char(n - 1) != '\\' {
        r.append("\\");
        proof {
            assert(r@ =~= dir@ + seq!['\\']);
        }
    }
    r.append(name);
    proof {
        assert(r@ =~= spec_backslash_join(dir@, name@));
    }
    r
}

/// The full backslash-separated path of `target` on a mapped network
/// drive: the drive's UNC name, then the working directory, then `target`.
/// A rooted target replaces the working directory instead of going under
/// it.
pub open spec fn spec_full_path(unc: Seq<char>, wrkdir: Seq<char>, target: Seq<char>) -> Seq<
    char,
> {
    if spec_is_rooted(target) {
        unc + target
    } else if wrkdir.len() > 0 && wrkdir.last() == '\\' {
        unc + wrkdir + target
    } else {
        unc + wrkdir + seq!['\\'] + target
    }
}

/// The full backslash-separated path of `target` on a mapped network
/// drive whose UNC name is `unc`, while the working directory is `wrkdir`.
pub fn full_path(unc: &str, wrkdir: &str, target: &str) -> (r: String)
    ensures
        r@ == spec_full_path(unc@, wrkdir@, target@),
{
    proof {
        reveal_strlit("\\");
    }
    let mut r = String::from_str(unc);
    let tn = target.unicode_len();
    if tn > 0 && target.get_char(0) == '\\' {
        r.append(target);
        proof {
            assert(r@ =~= spec_full_path(unc@, wrkdir@, target@));
        }
        return r;
    }
    r.append(wrkdir);
    let wn = wrkdir.unicode_len();
    if wn == 0 || wrkdir.get_char(wn - 1) != '\\' {
        r.append("\\");
        proof {
            assert(r@ =~= unc@ + wrkdir@ + seq!['\\']);
        }
    }
    r.append(target);
    proof {
        assert(r@ =~= spec_full_path(unc@, wrkdir@, target@));
    }
    r
}

} // verus!
