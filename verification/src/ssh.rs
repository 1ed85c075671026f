//! What a remote command run over the deployment session reports back.
//! The session itself — connecting, running, copying — is transport
//! work done outside the library.

use vstd::prelude::*;

verus! {

/// The outcome of one remote command: what it printed, and its exit
/// status if the remote side reported one.
#[derive(Debug)]
pub struct CommandResult {
    output: String,
    code: Option<i32>,
}

impl CommandResult {
    /// Package a remote command's outcome.
    pub fn new(output: String, code: Option<i32>) -> (r: CommandResult)
        ensures
            r.spec_output() == output,
            r.spec_code() == code,
    {
        CommandResult { output, code }
    }

    /// What the command printed.
    pub closed spec fn spec_output(&self) -> String {
        self.output
    }

    /// The exit status, if reported.
    pub closed spec fn spec_code(&self) -> Option<i32> {
        self.code
    }

    /// What the command printed.
    pub fn output(&self) -> (r: String)
        ensures r == self.spec_output(),
    {
        self.output.clone()
    }

    /// Whether the command succeeded: it reported exit status zero.
    pub fn success(&self) -> (r: bool)
        ensures r == (self.spec_code() == Some(0i32)),
    {
        match self.code {
            Some(c) => c == 0,
            None => false,
        }
    }

    /// The exit status, if reported.
    pub fn code(&self) -> (r: Option<i32>)
        ensures r == self.spec_code(),
    {
        self.code
    }
}

} // verus!
