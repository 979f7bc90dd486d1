//! What can go wrong, and how it is reported.

use vstd::prelude::*;
use vstd::string::*;

verus! {

/// The step of the bootstrap that a failure belongs to.
#[derive(Clone, Copy, Debug, PartialEq, Eq, Structural)]
pub enum FailureKind {
    /// A checkout could not be prepared or cloned.
    CloneFailed,
    /// The LLVM build tree could not be prepared or configured.
    ConfigureFailed,
    /// A build could not be run or ended with a failing exit status.
    BuildFailed,
    /// The cargo configuration could not be written.
    ConfigWriteFailed,
    /// The install tree could not be walked, or a link in it not resolved.
    FilesystemWalkFailed,
    /// A process that is no step of its own could not be started at all.
    ProcessSpawnFailed,
}

/// A fatal error: what was being attempted, and what the system said.
#[derive(Clone, Debug, PartialEq, Eq)]
pub struct Failure {
    pub kind: FailureKind,
    /// The attempted action, with the paths it concerned.
    pub description: String,
    /// The underlying reason as the caller reported it: an exit status or an
    /// operating system error. Empty where there is none.
    pub cause: String,
}

pub struct FailureView {
    pub kind: FailureKind,
    pub description: Seq<char>,
    pub cause: Seq<char>,
}

impl FailureView {
    /// The chained message: the description, then the cause where one is known.
    pub open spec fn message(self) -> Seq<char> {
        if self.cause.len() == 0 {
            self.description
        } else {
            self.description + ": "@ + self.cause
        }
    }
}

impl View for Failure {
    type V = FailureView;

    open spec fn view(&self) -> FailureView {
        FailureView { kind: self.kind, description: self.description@, cause: self.cause@ }
    }
}

impl Failure {
    pub fn new(kind: FailureKind, description: String, cause: String) -> (failure: Failure)
        ensures
            failure@ == (FailureView { kind, description: description@, cause: cause@ }),
    {
        Failure { kind, description, cause }
    }

    pub fn kind(&self) -> (kind: FailureKind)
        ensures
            kind == self@.kind,
    {
        self.kind
    }

    /// One line for the operator, from the attempted action down to its cause.
    pub fn message(&self) -> (text: String)
        ensures
            text@ == self@.message(),
    {
        let n: usize = self.cause.as_str().unicode_len();
        if n == 0 {
            self.description.clone()
        } else {
            self.description.clone().concat(": ").concat(self.cause.as_str())
        }
    }
}

} // verus!
