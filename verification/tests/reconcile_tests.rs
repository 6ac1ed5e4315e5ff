use sideko::archive::unpack_stream;
use sideko::archive::ArchiveEntry;
use sideko::reconcile::patch_filename;
use sideko::reconcile::step;
use sideko::reconcile::ReconcileAction;
use sideko::reconcile::ReconcileContext;
use sideko::reconcile::ReconcileEvent;
use sideko::reconcile::ReconcileState;
use sideko::reconcile::UpdateError;
use sideko::repo::GitCommandResult;
use sideko::repo::RepoError;

fn ctx() -> ReconcileContext {
    ReconcileContext {
        api_version: String::from("latest"),
        sdk_version: String::from("patch"),
    }
}

fn clean_check() -> ReconcileEvent {
    ReconcileEvent::GitChecked {
        git_dir_is_dir: true,
        status: GitCommandResult::Completed {
            success: true,
            stdout: Vec::new(),
            stderr: Vec::new(),
        },
    }
}

fn git_entries() -> Vec<ArchiveEntry> {
    vec![ArchiveEntry {
        path: b"HEAD".to_vec(),
        data: b"ref: refs/heads/main\n".to_vec(),
    }]
}

#[test]
fn missing_git_dir_fails_run() {
    let (s, a) = step(
        &ctx(),
        ReconcileState::Start,
        ReconcileEvent::GitChecked {
            git_dir_is_dir: false,
            status: GitCommandResult::Unavailable,
        },
    );
    assert!(matches!(
        s,
        ReconcileState::Failed {
            err: UpdateError::RepoValidation {
                err: RepoError::NotAGitRepo
            }
        }
    ));
    assert!(matches!(a, ReconcileAction::Stop));
}

#[test]
fn git_unavailable_fails_run() {
    let (s, a) = step(
        &ctx(),
        ReconcileState::Start,
        ReconcileEvent::GitChecked {
            git_dir_is_dir: true,
            status: GitCommandResult::Unavailable,
        },
    );
    assert!(matches!(
        s,
        ReconcileState::Failed {
            err: UpdateError::RepoValidation {
                err: RepoError::GitUnavailable
            }
        }
    ));
    assert!(matches!(a, ReconcileAction::Stop));
}

#[test]
fn dirty_tree_fails_before_any_packaging() {
    let (s, a) = step(
        &ctx(),
        ReconcileState::Start,
        ReconcileEvent::GitChecked {
            git_dir_is_dir: true,
            status: GitCommandResult::Completed {
                success: true,
                stdout: b" M src/lib.rs\n".to_vec(),
                stderr: Vec::new(),
            },
        },
    );
    let failed = match &s {
        ReconcileState::Failed {
            err: UpdateError::RepoValidation {
                err: RepoError::DirtyWorkingTree { stdout, .. },
            },
        } => stdout == &b" M src/lib.rs\n".to_vec(),
        _ => false,
    };
    assert!(failed);
    assert!(matches!(a, ReconcileAction::Stop));
    // Once failed, no later event makes the machine package or submit:
    // every further step leaves the state alone and instructs nothing.
    let mut state = s;
    let later_events = vec![
        ReconcileEvent::MetadataRead {
            content: Some(String::from("{\"id\":\"abc123\"}")),
        },
        ReconcileEvent::SourcesRead {
            config: Some(b"api: spec\n".to_vec()),
            entries: Some(git_entries()),
        },
        ReconcileEvent::RemoteDispatched,
    ];
    for e in later_events {
        let (s2, a2) = step(&ctx(), state, e);
        assert!(matches!(a2, ReconcileAction::Stop));
        assert!(matches!(s2, ReconcileState::Failed { .. }));
        state = s2;
    }
}

#[test]
fn unreadable_metadata_is_unresolvable_identity() {
    let (s, a) = step(
        &ctx(),
        ReconcileState::RepoValidated,
        ReconcileEvent::MetadataRead { content: None },
    );
    assert!(matches!(
        s,
        ReconcileState::Failed {
            err: UpdateError::RepoValidation {
                err: RepoError::UnresolvableRepoIdentity
            }
        }
    ));
    assert!(matches!(a, ReconcileAction::Stop));
}

#[test]
fn malformed_metadata_is_unresolvable_identity() {
    let (s, _) = step(
        &ctx(),
        ReconcileState::RepoValidated,
        ReconcileEvent::MetadataRead {
            content: Some(String::from("not json at all")),
        },
    );
    assert!(matches!(
        s,
        ReconcileState::Failed {
            err: UpdateError::RepoValidation {
                err: RepoError::UnresolvableRepoIdentity
            }
        }
    ));
}

#[test]
fn empty_remote_response_means_no_updates() {
    let (s, a) = step(
        &ctx(),
        ReconcileState::RemoteRequested,
        ReconcileEvent::RemoteResponded {
            patch: Some(Vec::new()),
        },
    );
    assert!(matches!(s, ReconcileState::NoChanges));
    // No patch file is created: the machine instructs nothing.
    assert!(matches!(a, ReconcileAction::Stop));
}

#[test]
fn transport_failure_is_remote_request_failure() {
    let (s, a) = step(
        &ctx(),
        ReconcileState::RemoteRequested,
        ReconcileEvent::RemoteResponded { patch: None },
    );
    assert!(matches!(
        s,
        ReconcileState::Failed {
            err: UpdateError::RemoteRequestFailure
        }
    ));
    assert!(matches!(a, ReconcileAction::Stop));
}

#[test]
fn full_run_applies_patch_and_cleans_up() {
    let c = ctx();
    let patch_bytes = b"diff --git a/f b/f\n".to_vec();

    let (s, a) = step(&c, ReconcileState::Start, clean_check());
    assert!(matches!(s, ReconcileState::RepoValidated));
    assert!(matches!(a, ReconcileAction::ReadMetadata));

    let (s, a) = step(
        &c,
        s,
        ReconcileEvent::MetadataRead {
            content: Some(String::from("{\"id\":\"abc123\"}")),
        },
    );
    let id_ok = matches!(&s, ReconcileState::IdentityResolved { sdk_id } if sdk_id == "abc123");
    assert!(id_ok);
    assert!(matches!(a, ReconcileAction::ReadSources));

    let (s, a) = step(
        &c,
        s,
        ReconcileEvent::SourcesRead {
            config: Some(b"api: spec\n".to_vec()),
            entries: Some(git_entries()),
        },
    );
    assert!(matches!(s, ReconcileState::Packaged));
    let request = match a {
        ReconcileAction::SubmitUpdate { request } => request,
        other => panic!("expected SubmitUpdate, got {:?}", other),
    };
    assert_eq!(request.api_version, "latest");
    assert_eq!(request.sdk_version, "patch");
    assert_eq!(request.prev_sdk_id, "abc123");
    assert_eq!(request.config, b"api: spec\n".to_vec());
    // The packed history unpacks back to the tree that was read.
    let unpacked = unpack_stream(&request.prev_sdk_git).expect("history should unpack");
    assert_eq!(unpacked.len(), 1);
    assert_eq!(unpacked[0].path, b"HEAD".to_vec());

    let (s, a) = step(&c, s, ReconcileEvent::RemoteDispatched);
    assert!(matches!(s, ReconcileState::RemoteRequested));
    assert!(matches!(a, ReconcileAction::AwaitRemote));

    let (s, a) = step(
        &c,
        s,
        ReconcileEvent::RemoteResponded {
            patch: Some(patch_bytes.clone()),
        },
    );
    assert!(matches!(s, ReconcileState::PatchReceived));
    let written = match a {
        ReconcileAction::WritePatchFile { patch } => patch,
        other => panic!("expected WritePatchFile, got {:?}", other),
    };
    assert_eq!(written, patch_bytes);

    let (s, a) = step(&c, s, ReconcileEvent::PatchFileWritten { ok: true });
    assert!(matches!(s, ReconcileState::PatchWritten));
    assert!(matches!(a, ReconcileAction::RunGitApply));

    let (s, a) = step(
        &c,
        s,
        ReconcileEvent::ApplyRun {
            result: GitCommandResult::Completed {
                success: true,
                stdout: Vec::new(),
                stderr: Vec::new(),
            },
        },
    );
    assert!(matches!(s, ReconcileState::Applied));
    // On success the patch file is deleted: no trace left behind.
    assert!(matches!(a, ReconcileAction::DeletePatchFile));

    let (s, a) = step(&c, s, ReconcileEvent::PatchFileDeleted { ok: true });
    assert!(matches!(s, ReconcileState::Applied));
    assert!(matches!(a, ReconcileAction::Stop));
}

#[test]
fn failed_apply_keeps_patch_file() {
    let c = ctx();
    let (s, a) = step(
        &c,
        ReconcileState::PatchWritten,
        ReconcileEvent::ApplyRun {
            result: GitCommandResult::Completed {
                success: false,
                stdout: b"error: patch failed\n".to_vec(),
                stderr: b"fatal\n".to_vec(),
            },
        },
    );
    let failed = match &s {
        ReconcileState::ApplyFailed { stdout, stderr } => {
            stdout == &b"error: patch failed\n".to_vec() && stderr == &b"fatal\n".to_vec()
        }
        _ => false,
    };
    assert!(failed);
    // The machine does not instruct a delete: the patch file stays on
    // disk for inspection.
    assert!(matches!(a, ReconcileAction::Stop));
}

#[test]
fn git_missing_at_apply_is_tool_unavailable() {
    let (s, a) = step(
        &ctx(),
        ReconcileState::PatchWritten,
        ReconcileEvent::ApplyRun {
            result: GitCommandResult::Unavailable,
        },
    );
    assert!(matches!(
        s,
        ReconcileState::Failed {
            err: UpdateError::ExternalToolUnavailable
        }
    ));
    assert!(matches!(a, ReconcileAction::Stop));
}

#[test]
fn patch_file_has_fixed_name() {
    assert_eq!(patch_filename(), "sdk_update.patch");
}
