//! The boundary to the processes that the embedding program runs: what to
//! execute, what came back, and how a finished process is classified.

use crate::error::{outcome_view, BindingError, BindingErrorView};
use crate::text::{contains, from_utf8_lossy, text_contains, trim, trimmed, utf8_lossy};
use vstd::prelude::*;
use vstd::string::*;

verus! {

/// The views of a list of strings, in order.
pub open spec fn tokens(args: Seq<String>) -> Seq<Seq<char>> {
    Seq::new(args.len(), |i: int| args[i]@)
}

/// Copies a list of strings.
pub(crate) fn copy_tokens(list: &Vec<String>) -> (copy: Vec<String>)
    ensures
        tokens(copy@) == tokens(list@),
{
    let mut copy: Vec<String> = Vec::new();
    let n: usize = list.len();
    let mut i: usize = 0;
    while i < n
        invariant
            i <= n,
            n == list.len(),
            copy.len() == i,
            forall|k: int| 0 <= k < i ==> copy@[k]@ == list@[k]@,
        decreases n - i,
    {
        copy.push(list[i].clone());
        i += 1;
    }
    assert(tokens(copy@) =~= tokens(list@));
    copy
}

/// A program and its arguments, ready to be executed.
#[derive(Clone, Debug, PartialEq, Eq)]
pub struct Invocation {
    pub program: String,
    pub args: Vec<String>,
}

/// A command line as character sequences.
pub struct CommandLine {
    pub program: Seq<char>,
    pub args: Seq<Seq<char>>,
}

impl View for Invocation {
    type V = CommandLine;

    open spec fn view(&self) -> CommandLine {
        CommandLine { program: self.program@, args: tokens(self.args@) }
    }
}

/// What became of an execution: the process ran to its end, or it could not be
/// started.
#[derive(Clone, Debug, PartialEq, Eq)]
pub enum ProcessResult {
    /// The exit code (none where a signal ended the process) and the raw bytes
    /// of the two output streams.
    Exited { code: Option<i32>, stdout: Vec<u8>, stderr: Vec<u8> },
    /// The system's message on the failure to start the process.
    SpawnFailed { error: String },
}

/// A `ProcessResult` with its contents as sequences.
pub enum ProcessResultView {
    Exited { code: Option<i32>, stdout: Seq<u8>, stderr: Seq<u8> },
    SpawnFailed { error: Seq<char> },
}

impl View for ProcessResult {
    type V = ProcessResultView;

    open spec fn view(&self) -> ProcessResultView {
        match self {
            ProcessResult::Exited { code, stdout, stderr } => ProcessResultView::Exited {
                code: *code,
                stdout: stdout@,
                stderr: stderr@,
            },
            ProcessResult::SpawnFailed { error } => ProcessResultView::SpawnFailed { error: error@ },
        }
    }
}

/// The classification of a process that ran to its end, from its exit code and
/// the decoded, trimmed texts of its streams. Exit code zero is success,
/// whatever was written. Otherwise the first of three messages that stands in
/// the error text decides, and the failure is unknown where none does.
pub open spec fn exit_classification(
    code: Option<i32>,
    stdout: Seq<char>,
    stderr: Seq<char>,
) -> Result<(), BindingErrorView> {
    if code == Some(0i32) {
        Ok(())
    } else if contains(stderr, "Directory not empty"@) {
        Err(BindingErrorView::DirectoryNotEmpty { stderr, stdout })
    } else if contains(stderr, "Chain already exists"@) {
        Err(BindingErrorView::ChainAlreadyExists { stderr, stdout })
    } else if contains(stderr, "No chain/target/match by that name"@) {
        Err(BindingErrorView::NotFoundByThatName { stderr, stdout })
    } else {
        Err(BindingErrorView::Unknown { stderr, stdout })
    }
}

/// Success is decided by the exit code alone: a process that exits with code
/// zero has succeeded, whatever it wrote.
pub proof fn lemma_success_whatever_was_written(stdout: Seq<char>, stderr: Seq<char>)
    ensures
        exit_classification(Some(0i32), stdout, stderr) == Ok::<(), BindingErrorView>(()),
{
}

/// A failed process whose error text holds "Chain already exists" anywhere,
/// and not the one message that is looked for before it, is classified as
/// finding the chain there, and the failure carries both texts.
pub proof fn lemma_chain_already_exists(code: Option<i32>, stdout: Seq<char>, stderr: Seq<char>)
    requires
        code != Some(0i32),
        contains(stderr, "Chain already exists"@),
        !contains(stderr, "Directory not empty"@),
    ensures
        exit_classification(code, stdout, stderr) == Err::<(), BindingErrorView>(
            BindingErrorView::ChainAlreadyExists { stderr, stdout },
        ),
{
}

/// A failed process is classified by the first, in their order, of the three
/// messages that its error text holds, and as unknown where it holds none.
pub proof fn lemma_first_message_decides(
    code: Option<i32>,
    stdout: Seq<char>,
    stderr: Seq<char>,
)
    requires
        code != Some(0i32),
    ensures
        exit_classification(code, stdout, stderr) is Err,
        contains(stderr, "Directory not empty"@) <==> exit_classification(
            code,
            stdout,
            stderr,
        )->Err_0 is DirectoryNotEmpty,
        !contains(stderr, "Directory not empty"@) && contains(stderr, "Chain already exists"@)
            <==> exit_classification(code, stdout, stderr)->Err_0 is ChainAlreadyExists,
        !contains(stderr, "Directory not empty"@) && !contains(stderr, "Chain already exists"@)
            && contains(stderr, "No chain/target/match by that name"@) <==> exit_classification(
            code,
            stdout,
            stderr,
        )->Err_0 is NotFoundByThatName,
{
}

/// The text that classification reads from a stream: the bytes decoded as
/// UTF-8, what is invalid replaced, and the white space at both ends removed.
pub open spec fn stream_text(bytes: Seq<u8>) -> Seq<char> {
    trimmed(utf8_lossy(bytes))
}

/// The classification of an execution.
pub open spec fn classification(result: ProcessResultView) -> Result<(), BindingErrorView> {
    match result {
        ProcessResultView::Exited { code, stdout, stderr } => exit_classification(
            code,
            stream_text(stdout),
            stream_text(stderr),
        ),
        ProcessResultView::SpawnFailed { error } => Err(BindingErrorView::UnknownIO { error }),
    }
}

/// Classifies a process that ran to its end, from its exit code and the texts
/// of its streams as they are given.
pub fn classify_exit(code: Option<i32>, stdout: String, stderr: String) -> (outcome: Result<
    (),
    BindingError,
>)
    ensures
        outcome_view(outcome) == exit_classification(code, stdout@, stderr@),
{
    match code {
        Some(0) => Ok(()),
        _ => {
            if text_contains(stderr.as_str(), "Directory not empty") {
                Err(BindingError::DirectoryNotEmpty { stderr, stdout })
            } else if text_contains(stderr.as_str(), "Chain already exists") {
                Err(BindingError::ChainAlreadyExists { stderr, stdout })
            } else if text_contains(stderr.as_str(), "No chain/target/match by that name") {
                Err(BindingError::NotFoundByThatName { stderr, stdout })
            } else {
                Err(BindingError::Unknown { stderr, stdout })
            }
        },
    }
}

/// Decodes a stream and trims it.
pub fn read_stream(bytes: &Vec<u8>) -> (text: String)
    ensures
        text@ == stream_text(bytes@),
{
    let decoded = from_utf8_lossy(bytes.as_slice());
    trim(decoded.as_str())
}

/// Classifies an execution.
pub fn classify(result: ProcessResult) -> (outcome: Result<(), BindingError>)
    ensures
        outcome_view(outcome) == classification(result@),
{
    match result {
        ProcessResult::Exited { code, stdout, stderr } => {
            let stdout_text = read_stream(&stdout);
            let stderr_text = read_stream(&stderr);
            classify_exit(code, stdout_text, stderr_text)
        },
        ProcessResult::SpawnFailed { error } => Err(BindingError::UnknownIO { error }),
    }
}

} // verus!
