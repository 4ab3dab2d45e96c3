//! The failures that an operation of the engine can end with.

use vstd::prelude::*;

verus! {

/// The kinds of failure.
#[derive(Clone, Copy, Debug, PartialEq, Eq, Structural)]
pub enum FailureKind {
    /// A collaborator that reads or writes durable state reported an error:
    /// the message log, a stored instruction, the credential, the cooldown
    /// stamp or the screenshot. The detail is the collaborator's message.
    Storage,
    /// No credential for the completion service is configured.
    Auth,
    /// The completion service could not be reached. The detail is the
    /// transport's message.
    Network,
    /// The completion service answered with a status other than success.
    /// The detail is the body of its answer.
    Rejected,
    /// The completion service reported success with a body that is not JSON.
    /// The detail is the parser's message.
    Parse,
    /// The moment of the turn cannot be expressed as a timestamp, or the
    /// screenshot is too large to be encoded.
    Limit,
    /// An event arrived that the operation was not waiting for.
    Protocol,
}

/// What a failure holds.
pub struct FailureView {
    pub kind: FailureKind,
    pub detail: Seq<char>,
}

/// A failure: its kind and the text that came with it.
#[derive(Clone, Debug, PartialEq, Eq)]
pub struct Failure {
    pub kind: FailureKind,
    pub detail: String,
}

impl View for Failure {
    type V = FailureView;

    open spec fn view(&self) -> FailureView {
        FailureView { kind: self.kind, detail: self.detail@ }
    }
}

/// The two operations, which word their failures differently.
#[derive(Clone, Copy, Debug, PartialEq, Eq, Structural)]
pub enum Operation {
    /// Handling a message of the user.
    Chat,
    /// Running a deep analysis.
    DeepAnalysis,
}

/// What is put in front of a failure's detail in the message shown to the
/// caller.
pub open spec fn failure_prefix(operation: Operation, kind: FailureKind) -> Seq<char> {
    match kind {
        FailureKind::Storage => Seq::empty(),
        FailureKind::Auth => "API key not configured"@,
        FailureKind::Network => match operation {
            Operation::Chat => "API request failed: "@,
            Operation::DeepAnalysis => Seq::empty(),
        },
        FailureKind::Rejected => match operation {
            Operation::Chat => "API error: "@,
            Operation::DeepAnalysis => "API request failed: "@,
        },
        FailureKind::Parse => match operation {
            Operation::Chat => "Failed to parse response: "@,
            Operation::DeepAnalysis => Seq::empty(),
        },
        FailureKind::Limit => "Out of range: "@,
        FailureKind::Protocol => "Unexpected event: "@,
    }
}

/// The message shown to the caller for a failure of the given operation.
pub open spec fn failure_message(operation: Operation, failure: FailureView) -> Seq<char> {
    failure_prefix(operation, failure.kind) + failure.detail
}

fn prefix_for(operation: Operation, kind: FailureKind) -> (r: &'static str)
    ensures
        r@ == failure_prefix(operation, kind),
{
    proof {
        reveal_strlit("");
    }
    assert(""@ =~= Seq::<char>::empty());
    match kind {
        FailureKind::Storage => "",
        FailureKind::Auth => "API key not configured",
        FailureKind::Network => match operation {
            Operation::Chat => "API request failed: ",
            Operation::DeepAnalysis => "",
        },
        FailureKind::Rejected => match operation {
            Operation::Chat => "API error: ",
            Operation::DeepAnalysis => "API request failed: ",
        },
        FailureKind::Parse => match operation {
            Operation::Chat => "Failed to parse response: ",
            Operation::DeepAnalysis => "",
        },
        FailureKind::Limit => "Out of range: ",
        FailureKind::Protocol => "Unexpected event: ",
    }
}

impl Failure {
    /// A failure of the given kind with the given detail.
    pub fn new(kind: FailureKind, detail: String) -> (r: Failure)
        ensures
            r.kind == kind,
            r.detail == detail,
    {
        Failure { kind, detail }
    }

    /// A failure of the given kind whose detail is a fixed text.
    pub fn with_text(kind: FailureKind, detail: &str) -> (r: Failure)
        ensures
            r@ == (FailureView { kind, detail: detail@ }),
    {
        Failure { kind, detail: String::from_str(detail) }
    }

    /// The message shown to the caller for this failure of the given operation.
    pub fn message(&self, operation: Operation) -> (r: String)
        ensures
            r@ == failure_message(operation, self@),
    {
        let mut text = String::from_str(prefix_for(operation, self.kind));
        text.append(self.detail.as_str());
        text
    }
}

} // verus!
