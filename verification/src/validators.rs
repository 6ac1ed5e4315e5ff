//! Path validation decisions.
//!
//! The application probes the filesystem and reports what it found as a
//! [`PathProbe`]; the functions here decide whether the probed path is
//! acceptable for the requested use.

use vstd::prelude::*;
use vstd::string::StrSliceExecFns;

verus! {

/// The kind of filesystem entry a caller expects at a path.
#[derive(Clone, Copy, Debug, PartialEq, Eq, Structural)]
pub enum PathKind {
    File,
    Dir,
}

/// The outcome of probing a path on disk.
#[derive(Clone, Copy, Debug, PartialEq, Eq, Structural)]
pub struct PathProbe {
    pub exists: bool,
    pub is_file: bool,
    pub is_dir: bool,
}

/// Whether a probed path is acceptable for the given kind, optionally
/// tolerating a path that does not exist yet.
pub open spec fn spec_path_allowed(probe: PathProbe, kind: PathKind, allow_dne: bool) -> bool {
    match kind {
        PathKind::File => probe.is_file || (allow_dne && !probe.exists),
        PathKind::Dir => probe.is_dir || (allow_dne && !probe.exists),
    }
}

/// Decides whether a probed path has the expected kind, optionally allowing
/// a path that does not exist.
pub fn validate_path(probe: PathProbe, kind: PathKind, allow_dne: bool) -> (r: bool)
    ensures
        r == spec_path_allowed(probe, kind, allow_dne),
{
    match kind {
        PathKind::File => probe.is_file || (allow_dne && !probe.exists),
        PathKind::Dir => probe.is_dir || (allow_dne && !probe.exists),
    }
}

/// The path must be an existing file.
pub fn validate_file(probe: PathProbe) -> (r: bool)
    ensures
        r == spec_path_allowed(probe, PathKind::File, false),
{
    validate_path(probe, PathKind::File, false)
}

/// The path must be a file or not exist at all.
pub fn validate_file_allow_dne(probe: PathProbe) -> (r: bool)
    ensures
        r == spec_path_allowed(probe, PathKind::File, true),
{
    validate_path(probe, PathKind::File, true)
}

/// The path must be an existing directory.
pub fn validate_dir(probe: PathProbe) -> (r: bool)
    ensures
        r == spec_path_allowed(probe, PathKind::Dir, false),
{
    validate_path(probe, PathKind::Dir, false)
}

/// The path must be a directory or not exist at all.
pub fn validate_dir_allow_dne(probe: PathProbe) -> (r: bool)
    ensures
        r == spec_path_allowed(probe, PathKind::Dir, true),
{
    validate_path(probe, PathKind::Dir, true)
}

/// Position `j` holds the dot introducing the extension of path `p`: it is
/// the final `.` of `p`, it lies in the final path component, and it is not
/// the first character of that component.
pub open spec fn spec_extension_dot(p: Seq<char>, j: int) -> bool {
    &&& 0 <= j < p.len()
    &&& p[j] == '.'
    &&& forall|k: int| j < k < p.len() ==> p[k] != '.' && p[k] != '/'
    &&& j > 0
    &&& p[j - 1] != '/'
}

/// A path has an extension exactly when some position satisfies
/// [`spec_extension_dot`]; the extension is everything after that dot.
pub open spec fn spec_has_extension(p: Seq<char>, e: Seq<char>) -> bool {
    exists|j: int| spec_extension_dot(p, j) && e == p.skip(j + 1)
}

/// At most one position can introduce the extension.
pub proof fn lemma_extension_dot_unique(p: Seq<char>, j1: int, j2: int)
    requires
        spec_extension_dot(p, j1),
        spec_extension_dot(p, j2),
    ensures
        j1 == j2,
{
    if j1 < j2 {
        assert(p[j2] != '.');
    } else if j2 < j1 {
        assert(p[j1] != '.');
    }
}

/// Extracts the extension of a path: the portion of its final component
/// after the final `.`, unless the component starts with that `.` or
/// contains none.
pub fn extension_of(path: &str) -> (r: Option<String>)
    ensures
        r matches Some(e) ==> spec_has_extension(path@, e@),
        r is None ==> forall|j: int| !spec_extension_dot(path@, j),
{
    let len = path.unicode_len();
    let mut i: usize = len;
    loop
        invariant
            0 <= i <= len,
            len == path@.len(),
            forall|k: int| i <= k < len ==> path@[k] != '.' && path@[k] != '/',
        decreases i,
    {
        if i == 0 {
            assert(forall|j: int| !spec_extension_dot(path@, j));
            return None;
        }
        let c = path.get_char(i - 1);
        if c == '/' {
            assert(forall|j: int| !spec_extension_dot(path@, j));
            return None;
        }
        if c == '.' {
            if i - 1 == 0 {
                assert(forall|j: int| !spec_extension_dot(path@, j));
                return None;
            }
            let prev = path.get_char(i - 2);
            if prev == '/' {
                assert(forall|j: int| !spec_extension_dot(path@, j));
                return None;
            }
            let ext = path.substring_char(i, len);
            let r = String::from_str(ext);
            assert(spec_extension_dot(path@, i - 1));
            assert(r@ == path@.skip(i as int));
            return Some(r);
        }
        i = i - 1;
    }
}

/// Whether the extension sequence is one of `json`, `yml` or `yaml`.
pub open spec fn spec_json_yaml_extension(e: Seq<char>) -> bool {
    e == "json"@ || e == "yml"@ || e == "yaml"@
}

/// A path acceptable as an API configuration file: its extension must be
/// `json`, `yml` or `yaml`.
pub open spec fn spec_json_yaml_path(p: Seq<char>) -> bool {
    exists|j: int| spec_extension_dot(p, j) && spec_json_yaml_extension(p.skip(j + 1))
}

/// The path must be an existing file whose extension is `json`, `yml` or
/// `yaml`.
pub fn validate_file_json_yaml(probe: PathProbe, path: &str) -> (r: bool)
    ensures
        r == (spec_path_allowed(probe, PathKind::File, false) && spec_json_yaml_path(path@)),
{
    if !validate_file(probe) {
        return false;
    }
    match extension_of(path) {
        None => {
            assert(!spec_json_yaml_path(path@));
            false
        },
        Some(e) => {
            let matched = e == String::from_str("json") || e == String::from_str("yml") || e
                == String::from_str("yaml");
            proof {
                let j = choose|j: int| spec_extension_dot(path@, j) && e@ == path@.skip(j + 1);
                if matched {
                    assert(spec_extension_dot(path@, j) && spec_json_yaml_extension(
                        path@.skip(j + 1),
                    ));
                } else {
                    if spec_json_yaml_path(path@) {
                        let j2 = choose|j2: int|
                            spec_extension_dot(path@, j2) && spec_json_yaml_extension(
                                path@.skip(j2 + 1),
                            );
                        lemma_extension_dot_unique(path@, j, j2);
                    }
                }
            }
            matched
        },
    }
}

} // verus!
