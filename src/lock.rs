use vstd::prelude::*;
use vstd::string::{StrSliceExecFns, StringExecFns};

use crate::error::RunError;

verus! {

/// A path is absolute when it starts at the root directory `/`.
pub open spec fn is_absolute_path(p: Seq<char>) -> bool {
    p.len() > 0 && p[0] == '/'
}

/// Appending `rel` to `dir`: an absolute `rel` replaces `dir`; otherwise a
/// separator is inserted unless `dir` is empty or already ends with one.
pub open spec fn join_path(dir: Seq<char>, rel: Seq<char>) -> Seq<char> {
    if is_absolute_path(rel) {
        rel
    } else if dir.len() == 0 || dir.last() == '/' {
        dir + rel
    } else {
        dir + seq!['/'] + rel
    }
}

/// The lock path candidate by precedence: the explicit argument, then the
/// package's configured value, then the default file name.
pub open spec fn chosen_lock_path(
    arg: Option<Seq<char>>,
    configured: Option<Seq<char>>,
    default: Option<Seq<char>>,
) -> Option<Seq<char>> {
    match arg {
        Some(a) => Some(a),
        None => match configured {
            Some(c) => Some(c),
            None => default,
        },
    }
}

/// The path a candidate stands for: itself if absolute, else the candidate
/// taken relative to the directory holding the package manifest.
pub open spec fn anchored_path(manifest_dir: Seq<char>, p: Seq<char>) -> Seq<char> {
    if is_absolute_path(p) {
        p
    } else {
        join_path(manifest_dir, p)
    }
}

pub open spec fn opt_view(o: Option<String>) -> Option<Seq<char>> {
    match o {
        Some(s) => Some(s@),
        None => None,
    }
}

/// The resolved lock path, if any candidate exists.
pub open spec fn resolved_lock_path(
    manifest_dir: Seq<char>,
    arg: Option<Seq<char>>,
    configured: Option<Seq<char>>,
    default: Option<Seq<char>>,
) -> Option<Seq<char>> {
    match chosen_lock_path(arg, configured, default) {
        Some(p) => Some(anchored_path(manifest_dir, p)),
        None => None,
    }
}

fn is_absolute(p: &str) -> (r: bool)
    ensures
        r == is_absolute_path(p@),
{
    p.unicode_len() > 0 && p.get_char(0) == '/'
}

fn join(dir: &str, rel: &str) -> (r: String)
    ensures
        r@ == join_path(dir@, rel@),
{
    if is_absolute(rel) {
        return String::from_str(rel);
    }
    let n = dir.unicode_len();
    let mut out = String::from_str(dir);
    if n > 0 && dir.get_char(n - 1) != '/' {
        proof {
            reveal_strlit("/");
        }
        out.append("/");
    }
    out.append(rel);
    out
}

/// Resolves the path of the oracle lock manifest from, in order of
/// precedence, an explicit argument, the value configured for the package,
/// and a default. A relative path is taken from `manifest_dir`, the directory
/// holding the package manifest, so the result does not depend on the
/// directory the process runs in. `None` when no candidate is given.
pub fn absolute_path(
    manifest_dir: &str,
    arg: Option<String>,
    configured: Option<String>,
    default: Option<String>,
) -> (r: Option<String>)
    ensures
        opt_view(r) == resolved_lock_path(
            manifest_dir@,
            opt_view(arg),
            opt_view(configured),
            opt_view(default),
        ),
{
    let definitions = match arg {
        Some(a) => a,
        None => match configured {
            Some(c) => c,
            None => match default {
                Some(d) => d,
                None => {
                    return None;
                },
            },
        },
    };
    if is_absolute(definitions.as_str()) {
        Some(definitions)
    } else {
        Some(join(manifest_dir, definitions.as_str()))
    }
}

/// Like [`absolute_path`], failing with `MissingConfiguration` when no
/// candidate is given.
pub fn resolve_lock_path(
    manifest_dir: &str,
    arg: Option<String>,
    configured: Option<String>,
    default: Option<String>,
) -> (r: Result<String, RunError>)
    ensures
        match resolved_lock_path(
            manifest_dir@,
            opt_view(arg),
            opt_view(configured),
            opt_view(default),
        ) {
            Some(p) => r matches Ok(s) && s@ == p,
            None => r matches Err(RunError::MissingConfiguration),
        },
{
    match absolute_path(manifest_dir, arg, configured, default) {
        Some(p) => Ok(p),
        None => Err(RunError::MissingConfiguration),
    }
}

/// Precedence of lock sources: an explicit path always wins; without one the
/// configured path wins over the default; with none of the three there is no
/// lock path.
pub proof fn lemma_lock_precedence(
    manifest_dir: Seq<char>,
    arg: Option<Seq<char>>,
    configured: Option<Seq<char>>,
    default: Option<Seq<char>>,
)
    ensures
        arg matches Some(a) ==> resolved_lock_path(manifest_dir, arg, configured, default)
            == Some(anchored_path(manifest_dir, a)),
        arg is None ==> (configured matches Some(c) ==> resolved_lock_path(
            manifest_dir,
            arg,
            configured,
            default,
        ) == Some(anchored_path(manifest_dir, c))),
        arg is None && configured is None && default is None ==> resolved_lock_path(
            manifest_dir,
            arg,
            configured,
            default,
        ) is None,
{
}

/// A relative lock path is anchored at the manifest directory: with an
/// absolute manifest directory the result is absolute, begins with that
/// directory and ends with the relative path, whatever directory the process
/// runs in (it is no input).
pub proof fn lemma_relative_path_anchored(manifest_dir: Seq<char>, rel: Seq<char>)
    requires
        is_absolute_path(manifest_dir),
        !is_absolute_path(rel),
    ensures
        is_absolute_path(anchored_path(manifest_dir, rel)),
        anchored_path(manifest_dir, rel).subrange(0, manifest_dir.len() as int) == manifest_dir,
        anchored_path(manifest_dir, rel).subrange(
            anchored_path(manifest_dir, rel).len() - rel.len(),
            anchored_path(manifest_dir, rel).len() as int,
        ) == rel,
{
    let r = anchored_path(manifest_dir, rel);
    if manifest_dir.last() == '/' {
        assert(r == manifest_dir + rel);
        assert(r.subrange(0, manifest_dir.len() as int) =~= manifest_dir);
        assert(r.subrange(r.len() - rel.len(), r.len() as int) =~= rel);
    } else {
        assert(r == manifest_dir + seq!['/'] + rel);
        assert(r.subrange(0, manifest_dir.len() as int) =~= manifest_dir);
        assert(r.subrange(r.len() - rel.len(), r.len() as int) =~= rel);
    }
}

} // verus!
