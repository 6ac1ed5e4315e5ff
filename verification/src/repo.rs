//! Git repository guard.
//!
//! The application probes the repository directory and invokes the system
//! git binary; the functions here turn those outcomes into the validation
//! verdicts the update flow depends on: a directory is only updated when
//! it is a git repository with a clean working tree and a resolvable SDK
//! identity.

use vstd::prelude::*;

verus! {

/// Outcome of invoking the system git binary.
#[derive(Clone, Debug, PartialEq, Eq)]
pub enum GitCommandResult {
    /// The binary could not be invoked at all (likely not installed).
    Unavailable,
    /// The process ran to completion with the captured output.
    Completed { success: bool, stdout: Vec<u8>, stderr: Vec<u8> },
}

/// Why a directory was rejected as the target of an update.
#[derive(Clone, Debug, PartialEq, Eq)]
pub enum RepoError {
    /// The directory has no `.git` subdirectory.
    NotAGitRepo,
    /// The git binary could not be invoked.
    GitUnavailable,
    /// The working tree has uncommitted changes; the captured status
    /// output is kept for diagnostics.
    DirtyWorkingTree { stdout: Vec<u8>, stderr: Vec<u8> },
    /// The SDK metadata file is missing or malformed, so the repository's
    /// identity cannot be resolved.
    UnresolvableRepoIdentity,
}

/// Validates that a directory is a clean git working tree.  The checks
/// apply in order: the `.git` entry must be a directory, the git binary
/// must be invocable, and the porcelain status output must be empty.
pub fn validate_clean_repo(git_dir_is_dir: bool, status: GitCommandResult) -> (r: Result<
    (),
    RepoError,
>)
    ensures
        (r matches Err(e) && e is NotAGitRepo) <==> !git_dir_is_dir,
        (r matches Err(e) && e is GitUnavailable) <==> (git_dir_is_dir && status is Unavailable),
        (r matches Err(e) && e is DirtyWorkingTree) <==> (git_dir_is_dir && (status matches
            GitCommandResult::Completed { stdout, .. } && stdout@.len() > 0)),
        r is Ok <==> (git_dir_is_dir && (status matches GitCommandResult::Completed {
            stdout,
            ..
        } && stdout@.len() == 0)),
        r matches Err(RepoError::DirtyWorkingTree { stdout: out, stderr: err })
            ==> status matches GitCommandResult::Completed { stdout, stderr, .. } && out@ == stdout@
            && err@ == stderr@,
{
    if !git_dir_is_dir {
        return Err(RepoError::NotAGitRepo);
    }
    match status {
        GitCommandResult::Unavailable => Err(RepoError::GitUnavailable),
        GitCommandResult::Completed { success: _, stdout, stderr } => {
            if stdout.len() > 0 {
                Err(RepoError::DirtyWorkingTree { stdout, stderr })
            } else {
                Ok(())
            }
        },
    }
}

/// The SDK identifier recorded in a metadata document, if the document is
/// a well-formed record carrying one.
pub uninterp spec fn spec_sdk_id_of(s: Seq<char>) -> Option<Seq<char>>;

/// Relies on serde_json::from_str: parses the metadata document and reads
/// the `id` field of the top-level object.  The result depends on the text
/// alone.
#[verifier::external_body]
fn parse_sdk_metadata_id(s: &str) -> (r: Option<String>)
    ensures
        r matches Some(id) ==> spec_sdk_id_of(s@) matches Some(v) && v == id@,
        r is None ==> spec_sdk_id_of(s@) is None,
{
    let value: serde_json::Value = serde_json::from_str(s).ok()?;
    Some(value.get("id")?.as_str()?.to_string())
}

/// Extracts the stored SDK identity of a repository from the contents of
/// its metadata file; a missing file or a malformed document makes the
/// identity unresolvable.
pub fn extract_repo_id(metadata: Option<&String>) -> (r: Result<String, RepoError>)
    ensures
        metadata is None ==> (r matches Err(e) && e is UnresolvableRepoIdentity),
        metadata matches Some(s) ==> match spec_sdk_id_of(s@) {
            Some(id) => r matches Ok(i) && i@ == id,
            None => r matches Err(e) && e is UnresolvableRepoIdentity,
        },
{
    match metadata {
        None => Err(RepoError::UnresolvableRepoIdentity),
        Some(s) => match parse_sdk_metadata_id(s.as_str()) {
            Some(id) => Ok(id),
            None => Err(RepoError::UnresolvableRepoIdentity),
        },
    }
}

} // verus!
