//! Resolving the application's images directory.
//!
//! The host environment answers one question — "what is this application's
//! data directory?" — and hands the answer in as a plain `Result`: the
//! directory's display string on success, the failure's message otherwise.
//! This library does the rest: it appends the fixed `images` segment to the
//! directory, the way a path join appends a relative segment, and passes a
//! failure's message through unchanged. It is a pure path computation:
//! nothing here touches the filesystem.

use vstd::prelude::*;
use vstd::string::StrSliceExecFns;
use vstd::string::StringExecFns;

verus! {

/// The fixed path segment that names the images directory.
pub open spec fn images_segment() -> Seq<char> {
    "images"@
}

/// The separator written between a directory and a segment joined to it.
pub open spec fn separator() -> Seq<char> {
    "/"@
}

/// The images directory under `dir`: `dir` with the `images` segment
/// appended. A separator is written in between unless `dir` is empty or
/// already ends in one, so no separator is ever doubled and an empty
/// directory yields the bare segment.
pub open spec fn images_path_of(dir: Seq<char>) -> Seq<char> {
    if dir.len() == 0 || dir.last() == '/' {
        dir + images_segment()
    } else {
        dir + separator() + images_segment()
    }
}

/// The outcome of a directory query, or of its resolution, as mathematical
/// values: the path's characters on success, the message's on failure.
pub open spec fn outcome_view(r: Result<String, String>) -> Result<Seq<char>, Seq<char>> {
    match r {
        Ok(path) => Ok(path@),
        Err(msg) => Err(msg@),
    }
}

/// What resolution returns for each query outcome: a resolved directory
/// with the `images` segment joined to it, a failure's message unchanged.
pub open spec fn resolved_images_dir(query: Result<Seq<char>, Seq<char>>) -> Result<
    Seq<char>,
    Seq<char>,
> {
    match query {
        Ok(dir) => Ok(images_path_of(dir)),
        Err(msg) => Err(msg),
    }
}

/// Joins the `images` segment onto the directory `dir`.
pub fn join_images(dir: &str) -> (r: String)
    ensures
        r@ == images_path_of(dir@),
{
    let n = dir.unicode_len();
    let mut r = String::from_str(dir);
    if n > 0 && dir.get_char(n - 1) != '/' {
        r.append("/");
    }
    r.append("images");
    r
}

/// Resolves the images directory from the outcome of the host's data
/// directory query: on success the queried directory with `images` joined
/// to it, on failure the query's own error message. A pure computation —
/// the directory is not created, read or checked for existence.
pub fn resolve_images_dir(data_dir: Result<String, String>) -> (r: Result<String, String>)
    ensures
        outcome_view(r) == resolved_images_dir(outcome_view(data_dir)),
{
    match data_dir {
        Ok(dir) => Ok(join_images(dir.as_str())),
        Err(msg) => Err(msg),
    }
}

/// Law: resolution is a function of the query outcome alone, and so
/// side-effect-free resolution is idempotent — two resolutions of the
/// same outcome agree, path for path and message for message.
pub proof fn lemma_resolution_deterministic(
    query: Result<Seq<char>, Seq<char>>,
    r1: Result<Seq<char>, Seq<char>>,
    r2: Result<Seq<char>, Seq<char>>,
)
    requires
        r1 == resolved_images_dir(query),
        r2 == resolved_images_dir(query),
    ensures
        r1 == r2,
{
}

/// Law: a failed query resolves to a failure carrying the query's own
/// message, and to no path at all.
pub proof fn lemma_failure_passes_through(query: Result<Seq<char>, Seq<char>>, msg: Seq<char>)
    requires
        query == Err::<Seq<char>, Seq<char>>(msg),
    ensures
        resolved_images_dir(query) == Err::<Seq<char>, Seq<char>>(msg),
{
}

} // verus!
