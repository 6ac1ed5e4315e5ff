//! Plain request records exchanged with the hosted service.

use vstd::prelude::*;

verus! {

/// Request for a browser login URL, optionally directing the CLI callback.
#[derive(Clone, Debug)]
pub struct LoginUrlRequest {
    pub cli_output: Option<String>,
    pub cli_port: Option<i64>,
}

impl Default for LoginUrlRequest {
    /// An empty login request: no CLI output override and no port.
    fn default() -> (r: Self)
        ensures
            r.cli_output is None,
            r.cli_port is None,
    {
        LoginUrlRequest { cli_output: None, cli_port: None }
    }
}

/// Request asking the service whether a newer CLI release exists.
#[derive(Clone, Debug)]
pub struct CliCheckUpdatesRequest {
    pub cli_version: String,
}

impl Default for CliCheckUpdatesRequest {
    /// An empty update check: no version string.
    fn default() -> (r: Self)
        ensures
            r.cli_version@ == Seq::<char>::empty(),
    {
        CliCheckUpdatesRequest { cli_version: String::new() }
    }
}

} // verus!
