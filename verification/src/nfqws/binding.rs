//! The command builder for the queue processor, and what the two process
//! utilities are asked and answer.

use crate::error::{outcome_view, BindingError, BindingErrorView};
use crate::nfqws::traits::{NfqwsBinding, NfqwsBindingFactory};
use crate::process::{
    classify, copy_tokens, read_stream, stream_text, tokens, CommandLine, Invocation,
    ProcessResult, ProcessResultView,
};
use crate::text::decimal_string;
use vstd::prelude::*;
use vstd::string::*;

verus! {

/// One command line for the queue processor, in the making: the executable and
/// the tokens put behind it so far.
#[derive(Debug)]
pub struct NfqwsCmd {
    path: String,
    args: Vec<String>,
}

impl NfqwsCmd {
    /// A command line for the executable at `nfqws_path`, with no argument yet.
    pub fn new(nfqws_path: &str) -> (cmd: NfqwsCmd)
        ensures
            cmd.program() == nfqws_path@,
            cmd.args() == Seq::<Seq<char>>::empty(),
    {
        let cmd = NfqwsCmd { path: nfqws_path.to_owned(), args: Vec::new() };
        assert(cmd.args() =~= Seq::<Seq<char>>::empty());
        cmd
    }

    /// Puts one token behind those already there.
    fn arg(&mut self, arg: &str)
        ensures
            final(self).program() == old(self).program(),
            final(self).args() == old(self).args().push(arg@),
    {
        self.args.push(arg.to_owned());
        assert(self.args() =~= old(self).args().push(arg@));
    }
}

impl NfqwsBinding for NfqwsCmd {
    closed spec fn program(&self) -> Seq<char> {
        self.path@
    }

    closed spec fn args(&self) -> Seq<Seq<char>> {
        tokens(self.args@)
    }

    fn invocation(&self) -> (inv: Invocation) {
        Invocation { program: self.path.clone(), args: copy_tokens(&self.args) }
    }

    fn run(self, result: ProcessResult) -> (outcome: Result<(), BindingError>) {
        classify(result)
    }

    fn debug(&mut self, mode: &str) -> (ret: &mut Self) {
        self.arg("--debug");
        self.arg(mode);
        assert(self.args() =~= old(self).args() + seq!["--debug"@, mode@]);
        self
    }

    fn daemon(&mut self) -> (ret: &mut Self) {
        self.arg("--daemon");
        assert(self.args() =~= old(self).args() + seq!["--daemon"@]);
        self
    }

    fn qnum(&mut self, num: u16) -> (ret: &mut Self) {
        let text = decimal_string(num as u32);
        self.arg("--qnum");
        self.arg(text.as_str());
        assert(self.args() =~= old(self).args() + seq!["--qnum"@, text@]);
        self
    }

    fn uid(&mut self, uid: &str) -> (ret: &mut Self) {
        self.arg("--uid");
        self.arg(uid);
        assert(self.args() =~= old(self).args() + seq!["--uid"@, uid@]);
        self
    }

    fn dpi_desync_fwmark(&mut self, value: &str) -> (ret: &mut Self) {
        self.arg("--dpi-desync-fwmark");
        self.arg(value);
        assert(self.args() =~= old(self).args() + seq!["--dpi-desync-fwmark"@, value@]);
        self
    }

    fn hostlist(&mut self, path: &str) -> (ret: &mut Self) {
        self.arg("--hostlist");
        self.arg(path);
        assert(self.args() =~= old(self).args() + seq!["--hostlist"@, path@]);
        self
    }

    fn hostlist_exclude(&mut self, path: &str) -> (ret: &mut Self) {
        self.arg("--hostlist-exclude");
        self.arg(path);
        assert(self.args() =~= old(self).args() + seq!["--hostlist-exclude"@, path@]);
        self
    }

    fn hostlist_auto(&mut self, path: &str) -> (ret: &mut Self) {
        self.arg("--hostlist-auto");
        self.arg(path);
        assert(self.args() =~= old(self).args() + seq!["--hostlist-auto"@, path@]);
        self
    }

    fn hostlist_auto_fail_threshold(&mut self, value: u32) -> (ret: &mut Self) {
        let text = decimal_string(value);
        self.arg("--hostlist-auto-fail-threshold");
        self.arg(text.as_str());
        assert(self.args() =~= old(self).args() + seq!["--hostlist-auto-fail-threshold"@, text@]);
        self
    }

    fn hostlist_auto_fail_time(&mut self, value: u32) -> (ret: &mut Self) {
        let text = decimal_string(value);
        self.arg("--hostlist-auto-fail-time");
        self.arg(text.as_str());
        assert(self.args() =~= old(self).args() + seq!["--hostlist-auto-fail-time"@, text@]);
        self
    }

    fn hostlist_auto_retrans_threshold(&mut self, value: u32) -> (ret: &mut Self) {
        let text = decimal_string(value);
        self.arg("--hostlist-auto-retrans-threshold");
        self.arg(text.as_str());
        assert(self.args() =~= old(self).args() + seq!["--hostlist-auto-retrans-threshold"@, text@]);
        self
    }

    fn custom_args(&mut self, args: &Vec<String>) -> (ret: &mut Self) {
        let n: usize = args.len();
        let mut i: usize = 0;
        while i < n
            invariant
                i <= n,
                n == args.len(),
                self.program() == old(self).program(),
                self.args() == old(self).args() + tokens(args@).take(i as int),
            decreases n - i,
        {
            self.arg(args[i].as_str());
            assert(self.args() =~= old(self).args() + tokens(args@).take(i + 1));
            i += 1;
        }
        assert(tokens(args@).take(n as int) =~= tokens(args@));
        self
    }
}

/// Makes builders of the kind that this library provides.
#[derive(Clone, Copy, Debug, Default)]
pub struct NfqwsCmdFactory;

impl NfqwsBindingFactory for NfqwsCmdFactory {
    type Binding = NfqwsCmd;

    fn create(&self, nfqws_path: &str) -> (binding: NfqwsCmd) {
        NfqwsCmd::new(nfqws_path)
    }
}

/// The command line of a process utility: the utility, and the name of the
/// processes it is to look for.
pub fn by_name(utility_path: &str, process_name: &str) -> (inv: Invocation)
    ensures
        inv@ == (CommandLine { program: utility_path@, args: seq![process_name@] }),
{
    let mut args: Vec<String> = Vec::new();
    args.push(process_name.to_owned());
    assert(tokens(args@) =~= seq![process_name@]);
    Invocation { program: utility_path.to_owned(), args }
}

/// The failure of a utility that says nothing the library knows: unknown, with
/// the texts of its streams, or that it could not be started.
pub open spec fn plain_failure(result: ProcessResultView) -> BindingErrorView {
    match result {
        ProcessResultView::Exited { stdout, stderr, .. } => BindingErrorView::Unknown {
            stderr: stream_text(stderr),
            stdout: stream_text(stdout),
        },
        ProcessResultView::SpawnFailed { error } => BindingErrorView::UnknownIO { error },
    }
}

/// The exit code of a process that ran to its end.
pub open spec fn exit_code(result: ProcessResultView) -> Option<i32> {
    match result {
        ProcessResultView::Exited { code, .. } => code,
        ProcessResultView::SpawnFailed { .. } => None,
    }
}

/// What the utility that signals processes by name came to: success on exit
/// code zero, and a failure on anything else, also where it found no process.
pub open spec fn pkill_outcome(result: ProcessResultView) -> Result<(), BindingErrorView> {
    if exit_code(result) == Some(0i32) {
        Ok(())
    } else {
        Err(plain_failure(result))
    }
}

/// What the utility that finds processes by name came to: exit code zero says
/// that one is running, exit code one that none is, and anything else is a
/// failure.
pub open spec fn pgrep_outcome(result: ProcessResultView) -> Result<bool, BindingErrorView> {
    if exit_code(result) == Some(0i32) {
        Ok(true)
    } else if exit_code(result) == Some(1i32) {
        Ok(false)
    } else {
        Err(plain_failure(result))
    }
}

/// The view of what a search for a process came to.
pub open spec fn found_view(outcome: Result<bool, BindingError>) -> Result<
    bool,
    BindingErrorView,
> {
    match outcome {
        Ok(found) => Ok(found),
        Err(e) => Err(e@),
    }
}

fn fail_plainly(result: ProcessResult) -> (e: BindingError)
    ensures
        e@ == plain_failure(result@),
{
    match result {
        ProcessResult::Exited { code, stdout, stderr } => {
            let stdout = read_stream(&stdout);
            let stderr = read_stream(&stderr);
            BindingError::Unknown { stderr, stdout }
        },
        ProcessResult::SpawnFailed { error } => BindingError::UnknownIO { error },
    }
}

fn code_of(result: &ProcessResult) -> (code: Option<i32>)
    ensures
        code == exit_code(result@),
{
    match result {
        ProcessResult::Exited { code, .. } => *code,
        ProcessResult::SpawnFailed { .. } => None,
    }
}

/// Reads what the utility that signals processes by name returned.
pub fn pkill(result: ProcessResult) -> (outcome: Result<(), BindingError>)
    ensures
        outcome_view(outcome) == pkill_outcome(result@),
{
    match code_of(&result) {
        Some(0) => Ok(()),
        _ => Err(fail_plainly(result)),
    }
}

/// Reads what the utility that finds processes by name returned.
pub fn pgrep(result: ProcessResult) -> (outcome: Result<bool, BindingError>)
    ensures
        found_view(outcome) == pgrep_outcome(result@),
{
    match code_of(&result) {
        Some(0) => Ok(true),
        Some(1) => Ok(false),
        _ => Err(fail_plainly(result)),
    }
}

} // verus!
