//! How an invocation, and the operation it belongs to, can fail.

use crate::iptables::enums::PortSpec;
use vstd::prelude::*;
use vstd::string::*;

verus! {

/// Why an invocation failed: what the tool said on a non-zero exit, or that the
/// process could not be started at all. The texts are those the process wrote,
/// decoded and trimmed.
#[derive(Clone, Debug, PartialEq, Eq)]
pub enum BindingError {
    /// The tool said "Directory not empty": the chain still holds rules or is
    /// still referred to.
    DirectoryNotEmpty { stderr: String, stdout: String },
    /// The tool said "Chain already exists".
    ChainAlreadyExists { stderr: String, stdout: String },
    /// The tool said "No chain/target/match by that name".
    NotFoundByThatName { stderr: String, stdout: String },
    /// The process was not started; `error` is the system's message.
    UnknownIO { error: String },
    /// The tool failed and said none of these.
    Unknown { stderr: String, stdout: String },
}

/// A `BindingError` with its texts as character sequences.
pub enum BindingErrorView {
    DirectoryNotEmpty { stderr: Seq<char>, stdout: Seq<char> },
    ChainAlreadyExists { stderr: Seq<char>, stdout: Seq<char> },
    NotFoundByThatName { stderr: Seq<char>, stdout: Seq<char> },
    UnknownIO { error: Seq<char> },
    Unknown { stderr: Seq<char>, stdout: Seq<char> },
}

impl View for BindingError {
    type V = BindingErrorView;

    open spec fn view(&self) -> BindingErrorView {
        match self {
            BindingError::DirectoryNotEmpty { stderr, stdout } => {
                BindingErrorView::DirectoryNotEmpty { stderr: stderr@, stdout: stdout@ }
            },
            BindingError::ChainAlreadyExists { stderr, stdout } => {
                BindingErrorView::ChainAlreadyExists { stderr: stderr@, stdout: stdout@ }
            },
            BindingError::NotFoundByThatName { stderr, stdout } => {
                BindingErrorView::NotFoundByThatName { stderr: stderr@, stdout: stdout@ }
            },
            BindingError::UnknownIO { error } => BindingErrorView::UnknownIO { error: error@ },
            BindingError::Unknown { stderr, stdout } => BindingErrorView::Unknown {
                stderr: stderr@,
                stdout: stdout@,
            },
        }
    }
}

/// A message that holds the two texts of a failed invocation.
pub open spec fn with_streams(message: Seq<char>, stderr: Seq<char>, stdout: Seq<char>) -> Seq<
    char,
> {
    message + " stderr: '"@ + stderr + "' stdout: '"@ + stdout + "'"@
}

fn streams_message(message: &str, stderr: &String, stdout: &String) -> (text: String)
    ensures
        text@ == with_streams(message@, stderr@, stdout@),
{
    let mut text = message.to_owned();
    text.append(" stderr: '");
    text.append(stderr.as_str());
    text.append("' stdout: '");
    text.append(stdout.as_str());
    text.append("'");
    text
}

impl BindingErrorView {
    /// The message of the failure.
    pub open spec fn text(self) -> Seq<char> {
        match self {
            BindingErrorView::DirectoryNotEmpty { stderr, stdout } => with_streams(
                "Directory not empty."@,
                stderr,
                stdout,
            ),
            BindingErrorView::ChainAlreadyExists { stderr, stdout } => with_streams(
                "Chain already exists."@,
                stderr,
                stdout,
            ),
            BindingErrorView::NotFoundByThatName { stderr, stdout } => with_streams(
                "Not found chain/target/match by that name."@,
                stderr,
                stdout,
            ),
            BindingErrorView::UnknownIO { error } => "Unknown iptables error (IO). error: "@
                + error,
            BindingErrorView::Unknown { stderr, stdout } => with_streams(
                "Unknown iptables error."@,
                stderr,
                stdout,
            ),
        }
    }
}

impl BindingError {
    /// Renders the failure as a message for the operator.
    pub fn to_string(&self) -> (text: String)
        ensures
            text@ == self@.text(),
    {
        match self {
            BindingError::DirectoryNotEmpty { stderr, stdout } => streams_message(
                "Directory not empty.",
                stderr,
                stdout,
            ),
            BindingError::ChainAlreadyExists { stderr, stdout } => streams_message(
                "Chain already exists.",
                stderr,
                stdout,
            ),
            BindingError::NotFoundByThatName { stderr, stdout } => streams_message(
                "Not found chain/target/match by that name.",
                stderr,
                stdout,
            ),
            BindingError::UnknownIO { error } => {
                let mut text = "Unknown iptables error (IO). error: ".to_owned();
                text.append(error.as_str());
                text
            },
            BindingError::Unknown { stderr, stdout } => streams_message(
                "Unknown iptables error.",
                stderr,
                stdout,
            ),
        }
    }
}

/// The view of what one invocation came to.
pub open spec fn outcome_view(outcome: Result<(), BindingError>) -> Result<(), BindingErrorView> {
    match outcome {
        Ok(()) => Ok(()),
        Err(e) => Err(e@),
    }
}

/// The operation in the course of which an invocation was made.
#[derive(Clone, Copy, Debug, PartialEq, Eq, Structural)]
pub enum Operation {
    CreateChain,
    AddJumpRule,
    AddPortRule(PortSpec),
    RemoveJumpRule,
    FlushChain,
    DeleteChain,
    StartProcess,
    KillProcess,
    SearchProcess,
}

impl Operation {
    /// What is said of an operation that failed.
    pub open spec fn text(self) -> Seq<char> {
        match self {
            Operation::CreateChain => "Failed to create chain ZAPRET_UX"@,
            Operation::AddJumpRule => "Failed to add jump rule from POSTROUTING to ZAPRET_UX"@,
            Operation::AddPortRule(port_spec) => "Failed to add port rule for "@
                + port_spec.text(),
            Operation::RemoveJumpRule => "Failed to remove jump rule"@,
            Operation::FlushChain => "Failed to flush target chain"@,
            Operation::DeleteChain => "Failed to delete target chain"@,
            Operation::StartProcess => "Failed to start nfqws process"@,
            Operation::KillProcess => "Failed to kill nfqws process"@,
            Operation::SearchProcess => "Failed to search nfqws process"@,
        }
    }

    /// Renders what is said of the operation where it failed.
    pub fn to_string(&self) -> (text: String)
        ensures
            text@ == self.text(),
    {
        match self {
            Operation::CreateChain => "Failed to create chain ZAPRET_UX".to_owned(),
            Operation::AddJumpRule => {
                "Failed to add jump rule from POSTROUTING to ZAPRET_UX".to_owned()
            },
            Operation::AddPortRule(port_spec) => {
                let mut text = "Failed to add port rule for ".to_owned();
                text.append(port_spec.to_string().as_str());
                text
            },
            Operation::RemoveJumpRule => "Failed to remove jump rule".to_owned(),
            Operation::FlushChain => "Failed to flush target chain".to_owned(),
            Operation::DeleteChain => "Failed to delete target chain".to_owned(),
            Operation::StartProcess => "Failed to start nfqws process".to_owned(),
            Operation::KillProcess => "Failed to kill nfqws process".to_owned(),
            Operation::SearchProcess => "Failed to search nfqws process".to_owned(),
        }
    }
}

/// A failed invocation together with the operation that made it.
#[derive(Clone, Debug, PartialEq, Eq)]
pub struct OperationError {
    pub operation: Operation,
    pub cause: BindingError,
}

/// An `OperationError` with its texts as character sequences.
pub struct OperationErrorView {
    pub operation: Operation,
    pub cause: BindingErrorView,
}

impl View for OperationError {
    type V = OperationErrorView;

    open spec fn view(&self) -> OperationErrorView {
        OperationErrorView { operation: self.operation, cause: self.cause@ }
    }
}

impl OperationErrorView {
    /// The message of the failure: what is said of the operation, then the
    /// message of the invocation that failed.
    pub open spec fn text(self) -> Seq<char> {
        self.operation.text() + ": "@ + self.cause.text()
    }
}

impl OperationError {
    /// Renders the failure as a message for the operator.
    pub fn to_string(&self) -> (text: String)
        ensures
            text@ == self@.text(),
    {
        let mut text = self.operation.to_string();
        text.append(": ");
        text.append(self.cause.to_string().as_str());
        text
    }
}

/// The view of what an operation came to.
pub open spec fn operation_view<T>(outcome: Result<T, OperationError>) -> Result<
    T,
    OperationErrorView,
> {
    match outcome {
        Ok(value) => Ok(value),
        Err(e) => Err(e@),
    }
}

/// What an operation makes of the outcome of its invocation: a success passes
/// through, and a failure is put under the operation's name.
pub open spec fn in_operation<T>(
    operation: Operation,
    outcome: Result<T, BindingErrorView>,
) -> Result<T, OperationErrorView> {
    match outcome {
        Ok(value) => Ok(value),
        Err(cause) => Err(OperationErrorView { operation, cause }),
    }
}

} // verus!
