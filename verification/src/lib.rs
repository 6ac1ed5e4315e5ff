//! Local reconciliation logic for a hosted SDK-generation service.
//!
//! The library verifies the decision-making parts of the client: path
//! validation, configuration resolution and storage, archive packing and
//! unpacking, git-repository cleanliness checks, and the update
//! reconciliation state machine.  Filesystem probes, process invocation and
//! network transport are performed by the surrounding application, which
//! hands their outcomes to the functions here as plain values.

pub mod archive;
pub mod config;
pub mod create;
pub mod reconcile;
pub mod repo;
pub mod requests;
pub mod validators;
