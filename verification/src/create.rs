//! Destination handling for freshly generated SDK archives.
//!
//! After the service returns a generated SDK archive, the stream is
//! unpacked into the chosen output directory; the directory the SDK ends
//! up in is the output joined with the archive's filename, minus its
//! `.tar.gz` suffix.

use vstd::prelude::*;
use vstd::string::StrSliceExecFns;
use vstd::string::StringExecFns;

use crate::config::spec_ends_with;

verus! {

/// Checks that a string ends with the given suffix.
pub fn str_ends_with(s: &str, suffix: &str) -> (r: bool)
    ensures
        r == spec_ends_with(s@, suffix@),
{
    let n = suffix.unicode_len();
    let l = s.unicode_len();
    if l < n {
        return false;
    }
    let mut i: usize = 0;
    while i < n
        invariant
            0 <= i <= n,
            n == suffix@.len(),
            l == s@.len(),
            l >= n,
            forall|k: int| 0 <= k < i ==> s@[l - n + k] == suffix@[k],
        decreases n - i,
    {
        if s.get_char(l - n + i) != suffix.get_char(i) {
            proof {
                if spec_ends_with(s@, suffix@) {
                    assert(s@.skip(l - n)[i as int] == s@[l - n + i]);
                }
            }
            return false;
        }
        i = i + 1;
    }
    proof {
        assert(s@.skip(l - n) =~= suffix@);
    }
    true
}

/// An archive filename without its `.tar.gz` suffix; a name without the
/// suffix is kept as it is.
pub open spec fn spec_strip_targz(name: Seq<char>) -> Seq<char> {
    if spec_ends_with(name, ".tar.gz"@) {
        name.take(name.len() - 7)
    } else {
        name
    }
}

/// Strips a trailing `.tar.gz` from an archive filename.
pub fn strip_targz_suffix(name: &str) -> (r: String)
    ensures
        r@ == spec_strip_targz(name@),
{
    if str_ends_with(name, ".tar.gz") {
        proof {
            reveal_strlit(".tar.gz");
        }
        let len = name.unicode_len();
        String::from_str(name.substring_char(0, len - 7))
    } else {
        name.to_owned()
    }
}

/// A path joined under a directory: an absolute name stands alone; an
/// empty directory contributes nothing; otherwise a single `/` separates
/// the two.
pub open spec fn spec_join_path(dir: Seq<char>, name: Seq<char>) -> Seq<char> {
    if name.len() > 0 && name[0] == '/' {
        name
    } else if dir.len() == 0 {
        name
    } else if dir[dir.len() - 1] == '/' {
        dir + name
    } else {
        dir + "/"@ + name
    }
}

/// Joins a file name onto a directory path.
pub fn join_path(dir: &str, name: &str) -> (r: String)
    ensures
        r@ == spec_join_path(dir@, name@),
{
    let name_len = name.unicode_len();
    if name_len > 0 && name.get_char(0) == '/' {
        return name.to_owned();
    }
    let dir_len = dir.unicode_len();
    if dir_len == 0 {
        return name.to_owned();
    }
    if dir.get_char(dir_len - 1) == '/' {
        String::from_str(dir).concat(name)
    } else {
        String::from_str(dir).concat("/").concat(name)
    }
}

/// The transient request submitted to the remote service to generate a
/// fresh SDK: the API version, the configuration file's bytes, whether to
/// include repository actions, the target language, and the SDK version.
#[derive(Clone, Debug)]
pub struct GenerateRequest {
    pub api_version: String,
    pub config: Vec<u8>,
    pub github_actions: Option<bool>,
    pub language: String,
    pub sdk_version: String,
}

/// Builds a generation request carrying exactly the given fields.
pub fn build_generate_request(
    api_version: String,
    config: Vec<u8>,
    github_actions: Option<bool>,
    language: String,
    sdk_version: String,
) -> (r: GenerateRequest)
    ensures
        r.api_version@ == api_version@,
        r.config@ == config@,
        r.github_actions == github_actions,
        r.language@ == language@,
        r.sdk_version@ == sdk_version@,
{
    GenerateRequest { api_version, config, github_actions, language, sdk_version }
}

/// Where a generated SDK is reported saved: the output directory joined
/// with the archive's filename minus its `.tar.gz` suffix; without a
/// filename, the output directory itself.
pub open spec fn spec_output_destination(output: Seq<char>, archive: Option<Seq<char>>) -> Seq<
    char,
> {
    match archive {
        Some(name) => spec_join_path(output, spec_strip_targz(name)),
        None => output,
    }
}

/// Computes the directory a generated SDK ends up in.
pub fn output_destination(output: &str, archive_filename: Option<&str>) -> (r: String)
    ensures
        r@ == spec_output_destination(
            output@,
            match archive_filename {
                Some(name) => Some(name@),
                None => None,
            },
        ),
{
    match archive_filename {
        Some(name) => {
            let stripped = strip_targz_suffix(name);
            join_path(output, stripped.as_str())
        },
        None => output.to_owned(),
    }
}

} // verus!
