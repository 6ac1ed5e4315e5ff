//! The update reconciliation state machine.
//!
//! One reconciliation run validates the repository, resolves its stored
//! SDK identity, packages the version-control history together with the
//! user's configuration, submits an update request, and applies the
//! returned patch.  The machine here makes every decision; the
//! application performs the instructed actions (probes, file reads and
//! writes, the remote call, git invocations) and reports each outcome
//! back as an event.
//!
//! The guard runs before any packaging work begins: a repository that is
//! not a clean git working tree fails the run before any archive is built
//! or any network traffic happens.  On a successful apply the patch file
//! is deleted; on a failed apply it is deliberately left in place for
//! inspection.

use vstd::prelude::*;
use vstd::string::StringExecFns;

use crate::archive::pack_entries;
use crate::archive::spec_entries_plain;
use crate::archive::spec_targz_of;
use crate::archive::ArchiveEntry;
use crate::repo::extract_repo_id;
use crate::repo::spec_sdk_id_of;
use crate::repo::validate_clean_repo;
use crate::repo::GitCommandResult;
use crate::repo::RepoError;

verus! {

/// The transient update request submitted to the remote service: the API
/// version, the configuration file's bytes, the packed `.git` history,
/// the stored SDK identity, and the target version or bump keyword.
#[derive(Clone, Debug)]
pub struct UpdateRequest {
    pub api_version: String,
    pub config: Vec<u8>,
    pub prev_sdk_git: Vec<u8>,
    pub prev_sdk_id: String,
    pub sdk_version: String,
}

/// The fixed inputs of one reconciliation run.  The target version is an
/// opaque string: an explicit semantic version or a bump keyword, judged
/// by the remote service.
#[derive(Clone, Debug)]
pub struct ReconcileContext {
    pub api_version: String,
    pub sdk_version: String,
}

/// Errors that end a reconciliation run.
#[derive(Clone, Debug)]
pub enum UpdateError {
    /// The repository failed validation or identity resolution.
    RepoValidation { err: RepoError },
    /// A local read, write or archive operation failed.
    LocalIo,
    /// The remote call failed in transport or was refused.
    RemoteRequestFailure,
    /// The git binary could not be invoked for the apply step.
    ExternalToolUnavailable,
}

/// Where a reconciliation run stands.
#[derive(Clone, Debug)]
pub enum ReconcileState {
    /// Nothing has been checked yet.
    Start,
    /// The repository is a clean git working tree.
    RepoValidated,
    /// The stored SDK identity was read from the metadata file.
    IdentityResolved { sdk_id: String },
    /// The history archive and the update request have been built.
    Packaged,
    /// The request is on the wire; the response is awaited.
    RemoteRequested,
    /// The service returned an empty response: nothing to apply.
    NoChanges,
    /// A non-empty patch arrived and is being written to the repo root.
    PatchReceived,
    /// The patch file is on disk, ready for git-apply.
    PatchWritten,
    /// git-apply succeeded; the patch file is removed.
    Applied,
    /// git-apply exited non-zero; the patch file stays for inspection.
    ApplyFailed { stdout: Vec<u8>, stderr: Vec<u8> },
    /// The run ended early with an error.
    Failed { err: UpdateError },
}

/// What the application reports back to the machine.
#[derive(Clone, Debug)]
pub enum ReconcileEvent {
    /// The `.git` probe and the porcelain status invocation finished.
    GitChecked { git_dir_is_dir: bool, status: GitCommandResult },
    /// The metadata file was read, or could not be.
    MetadataRead { content: Option<String> },
    /// The configuration file and the `.git` tree were read, or not.
    SourcesRead { config: Option<Vec<u8>>, entries: Option<Vec<ArchiveEntry>> },
    /// The update request left for the remote service.
    RemoteDispatched,
    /// The remote call returned patch bytes, or failed in transport.
    RemoteResponded { patch: Option<Vec<u8>> },
    /// Writing the patch file succeeded or failed.
    PatchFileWritten { ok: bool },
    /// The git-apply invocation finished.
    ApplyRun { result: GitCommandResult },
    /// Deleting the patch file succeeded or failed.
    PatchFileDeleted { ok: bool },
}

/// What the machine instructs the application to do next.
#[derive(Clone, Debug)]
pub enum ReconcileAction {
    /// Read the repository's SDK metadata file.
    ReadMetadata,
    /// Read the configuration file and walk the `.git` tree.
    ReadSources,
    /// Submit this update request to the remote service.
    SubmitUpdate { request: UpdateRequest },
    /// Await the remote response.
    AwaitRemote,
    /// Write these bytes to the patch file at the repo root.
    WritePatchFile { patch: Vec<u8> },
    /// Invoke git-apply on the patch file.
    RunGitApply,
    /// Delete the patch file.
    DeletePatchFile,
    /// The run is over; nothing more to do.
    Stop,
}

/// The fixed name of the patch file at the repository root.
pub fn patch_filename() -> (r: String)
    ensures
        r@ == "sdk_update.patch"@,
{
    String::from_str("sdk_update.patch")
}

/// A state no event can leave.
pub open spec fn spec_terminal(s: ReconcileState) -> bool {
    s is NoChanges || s is ApplyFailed || s is Failed
}

/// The full transition relation of the machine: given the context, the
/// pre-state and the event, constrains the returned state and action.
pub open spec fn spec_step_post(
    ctx: ReconcileContext,
    state: ReconcileState,
    event: ReconcileEvent,
    r: (ReconcileState, ReconcileAction),
) -> bool {
    match (state, event) {
        // Guard: the checks apply in order; a repository that is not a
        // clean git working tree fails the run before any packaging.
        (ReconcileState::Start, ReconcileEvent::GitChecked { git_dir_is_dir, status }) => {
            if !git_dir_is_dir {
                (r.0 matches ReconcileState::Failed { err } && (err matches
                UpdateError::RepoValidation { err: e } && e is NotAGitRepo)) && r.1 is Stop
            } else {
                match status {
                    GitCommandResult::Unavailable => (r.0 matches ReconcileState::Failed { err }
                        && (err matches UpdateError::RepoValidation { err: e } && e
                        is GitUnavailable)) && r.1 is Stop,
                    GitCommandResult::Completed { stdout, stderr, .. } => if stdout.len() > 0 {
                        (r.0 matches ReconcileState::Failed { err } && (err matches
                        UpdateError::RepoValidation { err: e } && (e matches
                        RepoError::DirtyWorkingTree { stdout: so, stderr: se } && so@ == stdout@
                            && se@ == stderr@))) && r.1 is Stop
                    } else {
                        r.0 is RepoValidated && r.1 is ReadMetadata
                    },
                }
            }
        },
        // Identity: a well-formed metadata document resolves to its id;
        // anything else makes the identity unresolvable.
        (ReconcileState::RepoValidated, ReconcileEvent::MetadataRead { content }) => {
            match content {
                Some(text) => match spec_sdk_id_of(text@) {
                    Some(id) => (r.0 matches ReconcileState::IdentityResolved { sdk_id } && sdk_id@
                        == id) && r.1 is ReadSources,
                    None => (r.0 matches ReconcileState::Failed { err } && (err matches
                    UpdateError::RepoValidation { err: e } && e is UnresolvableRepoIdentity)) && r.1
                        is Stop,
                },
                None => (r.0 matches ReconcileState::Failed { err } && (err matches
                UpdateError::RepoValidation { err: e } && e is UnresolvableRepoIdentity)) && r.1
                    is Stop,
            }
        },
        // Packaging: with both sources read, either the request is built
        // with exactly these contents, or packing failed locally.
        (
            ReconcileState::IdentityResolved { sdk_id },
            ReconcileEvent::SourcesRead { config, entries },
        ) => {
            match (config, entries) {
                (Some(c), Some(en)) => if spec_entries_plain(en.deep_view()) {
                    r.0 is Packaged && (r.1 matches ReconcileAction::SubmitUpdate { request }
                        && request.api_version@ == ctx.api_version@ && request.sdk_version@
                        == ctx.sdk_version@ && request.prev_sdk_id@ == sdk_id@ && request.config@
                        == c@ && request.prev_sdk_git@ == spec_targz_of(en.deep_view()))
                } else {
                    (r.0 matches ReconcileState::Failed { err } && err is LocalIo) && r.1 is Stop
                },
                _ => (r.0 matches ReconcileState::Failed { err } && err is LocalIo) && r.1 is Stop,
            }
        },
        // Dispatch: the request on the wire is awaited.
        (ReconcileState::Packaged, ReconcileEvent::RemoteDispatched) => {
            r.0 is RemoteRequested && r.1 is AwaitRemote
        },
        // Response: a transport failure ends the run; an empty body means
        // no updates, and no patch file is created; a non-empty body is
        // written verbatim to the patch file.
        (ReconcileState::RemoteRequested, ReconcileEvent::RemoteResponded { patch }) => {
            match patch {
                None => (r.0 matches ReconcileState::Failed { err } && err
                    is RemoteRequestFailure) && r.1 is Stop,
                Some(p) => if p.len() == 0 {
                    r.0 is NoChanges && r.1 is Stop
                } else {
                    r.0 is PatchReceived && (r.1 matches ReconcileAction::WritePatchFile { patch }
                        && patch@ == p@)
                },
            }
        },
        // Patch write: success moves on to git-apply, failure ends the run.
        (ReconcileState::PatchReceived, ReconcileEvent::PatchFileWritten { ok }) => {
            if ok {
                r.0 is PatchWritten && r.1 is RunGitApply
            } else {
                (r.0 matches ReconcileState::Failed { err } && err is LocalIo) && r.1 is Stop
            }
        },
        // Apply: git missing is its own error; success deletes the patch
        // file; a non-zero exit reports the captured output and the patch
        // file is deliberately left in place.
        (ReconcileState::PatchWritten, ReconcileEvent::ApplyRun { result }) => {
            match result {
                GitCommandResult::Unavailable => (r.0 matches ReconcileState::Failed { err } && err
                    is ExternalToolUnavailable) && r.1 is Stop,
                GitCommandResult::Completed { success, stdout, stderr } => if success {
                    r.0 is Applied && r.1 is DeletePatchFile
                } else {
                    (r.0 matches ReconcileState::ApplyFailed { stdout: so, stderr: se } && so@
                        == stdout@ && se@ == stderr@) && r.1 is Stop
                },
            }
        },
        // Cleanup: a successful delete finishes the run; a failed delete
        // is a local error.
        (ReconcileState::Applied, ReconcileEvent::PatchFileDeleted { ok }) => {
            if ok {
                r.0 is Applied && r.1 is Stop
            } else {
                (r.0 matches ReconcileState::Failed { err } && err is LocalIo) && r.1 is Stop
            }
        },
        // An unexpected event (including any event in a terminal state)
        // changes nothing and stops the run.
        _ => r.0 == state && r.1 is Stop,
    }
}

/// Advances the reconciliation machine by one event and instructs the
/// application what to do next.
pub fn step(ctx: &ReconcileContext, state: ReconcileState, event: ReconcileEvent) -> (r: (
    ReconcileState,
    ReconcileAction,
))
    ensures
        spec_step_post(*ctx, state, event, r),
        // Ordering: work is only ever instructed from the state that owes
        // it, so packaging and submission presuppose a validated repo.
        r.1 is ReadMetadata ==> state is Start,
        r.1 is ReadSources ==> state is RepoValidated,
        r.1 is SubmitUpdate ==> state is IdentityResolved,
        r.1 is AwaitRemote ==> state is Packaged,
        r.1 is WritePatchFile ==> state is RemoteRequested,
        r.1 is RunGitApply ==> state is PatchReceived,
        r.1 is DeletePatchFile ==> state is PatchWritten,
        // A terminal state never changes and never instructs more work.
        spec_terminal(state) ==> r.0 == state && r.1 is Stop,
{
    match (state, event) {
        (ReconcileState::Start, ReconcileEvent::GitChecked { git_dir_is_dir, status }) => {
            match validate_clean_repo(git_dir_is_dir, status) {
                Ok(()) => (ReconcileState::RepoValidated, ReconcileAction::ReadMetadata),
                Err(e) => (
                    ReconcileState::Failed { err: UpdateError::RepoValidation { err: e } },
                    ReconcileAction::Stop,
                ),
            }
        },
        (ReconcileState::RepoValidated, ReconcileEvent::MetadataRead { content }) => {
            match extract_repo_id(content.as_ref()) {
                Ok(id) => (
                    ReconcileState::IdentityResolved { sdk_id: id },
                    ReconcileAction::ReadSources,
                ),
                Err(e) => (
                    ReconcileState::Failed { err: UpdateError::RepoValidation { err: e } },
                    ReconcileAction::Stop,
                ),
            }
        },
        (
            ReconcileState::IdentityResolved { sdk_id },
            ReconcileEvent::SourcesRead { config, entries },
        ) => {
            match (config, entries) {
                (Some(config), Some(entries)) => match pack_entries(&entries) {
                    Some(bytes) => {
                        let request = UpdateRequest {
                            api_version: ctx.api_version.clone(),
                            config,
                            prev_sdk_git: bytes,
                            prev_sdk_id: sdk_id,
                            sdk_version: ctx.sdk_version.clone(),
                        };
                        (ReconcileState::Packaged, ReconcileAction::SubmitUpdate { request })
                    },
                    None => (
                        ReconcileState::Failed { err: UpdateError::LocalIo },
                        ReconcileAction::Stop,
                    ),
                },
                _ => (ReconcileState::Failed { err: UpdateError::LocalIo }, ReconcileAction::Stop),
            }
        },
        (ReconcileState::Packaged, ReconcileEvent::RemoteDispatched) => {
            (ReconcileState::RemoteRequested, ReconcileAction::AwaitRemote)
        },
        (ReconcileState::RemoteRequested, ReconcileEvent::RemoteResponded { patch }) => {
            match patch {
                None => (
                    ReconcileState::Failed { err: UpdateError::RemoteRequestFailure },
                    ReconcileAction::Stop,
                ),
                Some(p) => {
                    if p.len() == 0 {
                        (ReconcileState::NoChanges, ReconcileAction::Stop)
                    } else {
                        (
                            ReconcileState::PatchReceived,
                            ReconcileAction::WritePatchFile { patch: p },
                        )
                    }
                },
            }
        },
        (ReconcileState::PatchReceived, ReconcileEvent::PatchFileWritten { ok }) => {
            if ok {
                (ReconcileState::PatchWritten, ReconcileAction::RunGitApply)
            } else {
                (ReconcileState::Failed { err: UpdateError::LocalIo }, ReconcileAction::Stop)
            }
        },
        (ReconcileState::PatchWritten, ReconcileEvent::ApplyRun { result }) => {
            match result {
                GitCommandResult::Unavailable => (
                    ReconcileState::Failed { err: UpdateError::ExternalToolUnavailable },
                    ReconcileAction::Stop,
                ),
                GitCommandResult::Completed { success, stdout, stderr } => {
                    if success {
                        (ReconcileState::Applied, ReconcileAction::DeletePatchFile)
                    } else {
                        (ReconcileState::ApplyFailed { stdout, stderr }, ReconcileAction::Stop)
                    }
                },
            }
        },
        (ReconcileState::Applied, ReconcileEvent::PatchFileDeleted { ok }) => {
            if ok {
                (ReconcileState::Applied, ReconcileAction::Stop)
            } else {
                (ReconcileState::Failed { err: UpdateError::LocalIo }, ReconcileAction::Stop)
            }
        },
        (s, _) => (s, ReconcileAction::Stop),
    }
}

/// A run of the machine: `states[i]` is the state before event `i`,
/// `states[i + 1]` and `actions[i]` are what stepping on event `i`
/// returned, and every step satisfies the transition relation.
pub open spec fn spec_run(
    ctx: ReconcileContext,
    events: Seq<ReconcileEvent>,
    states: Seq<ReconcileState>,
    actions: Seq<ReconcileAction>,
) -> bool {
    &&& states.len() == events.len() + 1
    &&& actions.len() == events.len()
    &&& forall|i: int|
        0 <= i < events.len() ==> spec_step_post(
            ctx,
            #[trigger] states[i],
            events[i],
            (states[i + 1], actions[i]),
        )
}

/// Law: a failed run is failed for good.  From the step where a run
/// fails, every later state is the same failure and every later action is
/// `Stop`: nothing is packaged, submitted, written or applied any more.
pub proof fn lemma_failed_run_instructs_nothing(
    ctx: ReconcileContext,
    events: Seq<ReconcileEvent>,
    states: Seq<ReconcileState>,
    actions: Seq<ReconcileAction>,
    k: int,
)
    requires
        spec_run(ctx, events, states, actions),
        0 <= k <= events.len(),
        states[k] is Failed,
    ensures
        forall|i: int| k <= i <= events.len() ==> #[trigger] states[i] == states[k],
        forall|i: int| k <= i < events.len() ==> #[trigger] actions[i] is Stop,
{
    assert forall|i: int| k <= i <= events.len() implies #[trigger] states[i] == states[k] by {
        lemma_failed_run_prefix(ctx, events, states, actions, k, i);
    }
    assert forall|i: int| k <= i < events.len() implies #[trigger] actions[i] is Stop by {
        lemma_failed_run_prefix(ctx, events, states, actions, k, i);
    }
}

proof fn lemma_failed_run_prefix(
    ctx: ReconcileContext,
    events: Seq<ReconcileEvent>,
    states: Seq<ReconcileState>,
    actions: Seq<ReconcileAction>,
    k: int,
    i: int,
)
    requires
        spec_run(ctx, events, states, actions),
        0 <= k <= i <= events.len(),
        states[k] is Failed,
    ensures
        states[i] == states[k],
        i < events.len() ==> actions[i] is Stop,
    decreases i - k,
{
    if i > k {
        lemma_failed_run_prefix(ctx, events, states, actions, k, i - 1);
        assert(spec_step_post(ctx, states[i - 1], events[i - 1], (states[i], actions[i - 1])));
    } else {
        if i < events.len() {
            assert(spec_step_post(ctx, states[i], events[i], (states[i + 1], actions[i])));
        }
    }
}

/// Law: a working tree with uncommitted changes fails the run at its very
/// first step, before any packaging: the first transition out of `Start`
/// ends in `DirtyWorkingTree` with the captured status output, and by
/// [`lemma_failed_run_instructs_nothing`] no later step instructs work.
pub proof fn lemma_dirty_tree_fails_first(
    ctx: ReconcileContext,
    success: bool,
    stdout: Vec<u8>,
    stderr: Vec<u8>,
    r: (ReconcileState, ReconcileAction),
)
    requires
        stdout@.len() > 0,
        spec_step_post(
            ctx,
            ReconcileState::Start,
            ReconcileEvent::GitChecked {
                git_dir_is_dir: true,
                status: GitCommandResult::Completed { success, stdout, stderr },
            },
            r,
        ),
    ensures
        r.0 matches ReconcileState::Failed { err } && (err matches UpdateError::RepoValidation {
            err: e,
        } && e is DirtyWorkingTree),
        r.1 is Stop,
{
}

/// Law: a directory without a `.git` subdirectory fails the run at its
/// very first step with `NotAGitRepo`.
pub proof fn lemma_missing_git_dir_fails_first(
    ctx: ReconcileContext,
    status: GitCommandResult,
    r: (ReconcileState, ReconcileAction),
)
    requires
        spec_step_post(
            ctx,
            ReconcileState::Start,
            ReconcileEvent::GitChecked { git_dir_is_dir: false, status },
            r,
        ),
    ensures
        r.0 matches ReconcileState::Failed { err } && (err matches UpdateError::RepoValidation {
            err: e,
        } && e is NotAGitRepo),
        r.1 is Stop,
{
}

} // verus!
