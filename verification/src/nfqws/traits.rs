//! What a command builder for the queue processor offers, and the options it
//! is built from.

use crate::error::{outcome_view, BindingError};
use crate::process::{classification, tokens, CommandLine, Invocation, ProcessResult};
use crate::text::decimal;
use vstd::prelude::*;

verus! {

/// One option of a command line for the queue processor: what one call of an
/// appender adds.
pub enum Flag {
    /// Where the processor logs.
    Debug(Seq<char>),
    /// Detach from the terminal.
    Daemon,
    /// The queue to read packets from.
    Qnum(u16),
    /// The user and group to drop privileges to.
    Uid(Seq<char>),
    /// The mark to put on packets the processor sends itself.
    DpiDesyncFwmark(Seq<char>),
    /// The file of hosts to act on.
    Hostlist(Seq<char>),
    /// The file of hosts to leave alone.
    HostlistExclude(Seq<char>),
    /// The file of hosts that the processor adds by itself.
    HostlistAuto(Seq<char>),
    /// How many failures put a host on that list.
    HostlistAutoFailThreshold(u32),
    /// Within how many seconds those failures must fall.
    HostlistAutoFailTime(u32),
    /// How many retransmissions count as a failure.
    HostlistAutoRetransThreshold(u32),
    /// Tokens handed through as they are.
    Custom(Seq<Seq<char>>),
}

impl Flag {
    /// The tokens that the option puts on the command line.
    pub open spec fn tokens(self) -> Seq<Seq<char>> {
        match self {
            Flag::Debug(mode) => seq!["--debug"@, mode],
            Flag::Daemon => seq!["--daemon"@],
            Flag::Qnum(num) => seq!["--qnum"@, decimal(num as nat)],
            Flag::Uid(uid) => seq!["--uid"@, uid],
            Flag::DpiDesyncFwmark(value) => seq!["--dpi-desync-fwmark"@, value],
            Flag::Hostlist(path) => seq!["--hostlist"@, path],
            Flag::HostlistExclude(path) => seq!["--hostlist-exclude"@, path],
            Flag::HostlistAuto(path) => seq!["--hostlist-auto"@, path],
            Flag::HostlistAutoFailThreshold(value) => seq![
                "--hostlist-auto-fail-threshold"@,
                decimal(value as nat),
            ],
            Flag::HostlistAutoFailTime(value) => seq![
                "--hostlist-auto-fail-time"@,
                decimal(value as nat),
            ],
            Flag::HostlistAutoRetransThreshold(value) => seq![
                "--hostlist-auto-retrans-threshold"@,
                decimal(value as nat),
            ],
            Flag::Custom(args) => args,
        }
    }
}

/// The argument list of a command line: the tokens of its options, option
/// after option in the order in which they were added.
pub open spec fn render(flags: Seq<Flag>) -> Seq<Seq<char>>
    decreases flags.len(),
{
    if flags.len() == 0 {
        Seq::empty()
    } else {
        render(flags.drop_last()) + flags.last().tokens()
    }
}

/// One more call of an appender puts the tokens of its option behind those of
/// the calls before it, and changes none of them.
pub proof fn lemma_render_push(flags: Seq<Flag>, flag: Flag)
    ensures
        render(flags.push(flag)) == render(flags) + flag.tokens(),
{
    assert(flags.push(flag).drop_last() =~= flags);
}

/// The tokens of two lists of options, one after the other, are those of the
/// first followed by those of the second.
pub proof fn lemma_render_concat(first: Seq<Flag>, second: Seq<Flag>)
    ensures
        render(first + second) == render(first) + render(second),
    decreases second.len(),
{
    if second.len() == 0 {
        assert(first + second =~= first);
        assert(render(first) + render(second) =~= render(first));
    } else {
        lemma_render_concat(first, second.drop_last());
        assert((first + second).drop_last() =~= first + second.drop_last());
        assert(render(first + second) =~= render(first) + render(second));
    }
}

/// A builder of one command line for the queue processor. Each appender puts
/// the tokens of one option behind those already there and hands the builder
/// back, so that calls chain. `run` ends the builder's life.
pub trait NfqwsBinding: Sized {
    /// The path of the executable.
    spec fn program(&self) -> Seq<char>;

    /// The arguments added so far, in the order of the calls.
    spec fn args(&self) -> Seq<Seq<char>>;

    /// The command line as it stands: what is to be executed.
    fn invocation(&self) -> (inv: Invocation)
        ensures
            inv@ == (CommandLine { program: self.program(), args: self.args() }),
    ;

    /// Consumes the builder and classifies what its execution came to.
    fn run(self, result: ProcessResult) -> (outcome: Result<(), BindingError>)
        ensures
            outcome_view(outcome) == classification(result@),
    ;

    /// Log to `mode`: `0` for nowhere, `1` for the standard streams, `android`
    /// for the system log.
    fn debug(&mut self, mode: &str) -> (ret: &mut Self)
        ensures
            ret.program() == old(self).program(),
            ret.args() == old(self).args() + Flag::Debug(mode@).tokens(),
            *final(self) == *final(ret),
    ;

    /// Detach from the terminal.
    fn daemon(&mut self) -> (ret: &mut Self)
        ensures
            ret.program() == old(self).program(),
            ret.args() == old(self).args() + Flag::Daemon.tokens(),
            *final(self) == *final(ret),
    ;

    /// Read packets from queue `num`.
    fn qnum(&mut self, num: u16) -> (ret: &mut Self)
        ensures
            ret.program() == old(self).program(),
            ret.args() == old(self).args() + Flag::Qnum(num).tokens(),
            *final(self) == *final(ret),
    ;

    /// Drop privileges to `uid`.
    fn uid(&mut self, uid: &str) -> (ret: &mut Self)
        ensures
            ret.program() == old(self).program(),
            ret.args() == old(self).args() + Flag::Uid(uid@).tokens(),
            *final(self) == *final(ret),
    ;

    /// Put the mark `value` on packets the processor sends itself.
    fn dpi_desync_fwmark(&mut self, value: &str) -> (ret: &mut Self)
        ensures
            ret.program() == old(self).program(),
            ret.args() == old(self).args() + Flag::DpiDesyncFwmark(value@).tokens(),
            *final(self) == *final(ret),
    ;

    /// Act on the hosts listed in the file at `path`.
    fn hostlist(&mut self, path: &str) -> (ret: &mut Self)
        ensures
            ret.program() == old(self).program(),
            ret.args() == old(self).args() + Flag::Hostlist(path@).tokens(),
            *final(self) == *final(ret),
    ;

    /// Leave alone the hosts listed in the file at `path`.
    fn hostlist_exclude(&mut self, path: &str) -> (ret: &mut Self)
        ensures
            ret.program() == old(self).program(),
            ret.args() == old(self).args() + Flag::HostlistExclude(path@).tokens(),
            *final(self) == *final(ret),
    ;

    /// Keep the hosts that the processor adds by itself in the file at `path`.
    fn hostlist_auto(&mut self, path: &str) -> (ret: &mut Self)
        ensures
            ret.program() == old(self).program(),
            ret.args() == old(self).args() + Flag::HostlistAuto(path@).tokens(),
            *final(self) == *final(ret),
    ;

    /// Add a host after `value` failures.
    fn hostlist_auto_fail_threshold(&mut self, value: u32) -> (ret: &mut Self)
        ensures
            ret.program() == old(self).program(),
            ret.args() == old(self).args() + Flag::HostlistAutoFailThreshold(value).tokens(),
            *final(self) == *final(ret),
    ;

    /// Count failures that fall within `value` seconds.
    fn hostlist_auto_fail_time(&mut self, value: u32) -> (ret: &mut Self)
        ensures
            ret.program() == old(self).program(),
            ret.args() == old(self).args() + Flag::HostlistAutoFailTime(value).tokens(),
            *final(self) == *final(ret),
    ;

    /// Count `value` retransmissions as a failure.
    fn hostlist_auto_retrans_threshold(&mut self, value: u32) -> (ret: &mut Self)
        ensures
            ret.program() == old(self).program(),
            ret.args() == old(self).args() + Flag::HostlistAutoRetransThreshold(value).tokens(),
            *final(self) == *final(ret),
    ;

    /// Hand `args` through as they are.
    fn custom_args(&mut self, args: &Vec<String>) -> (ret: &mut Self)
        ensures
            ret.program() == old(self).program(),
            ret.args() == old(self).args() + Flag::Custom(tokens(args@)).tokens(),
            *final(self) == *final(ret),
    ;
}

/// A maker of builders for the queue processor.
pub trait NfqwsBindingFactory {
    type Binding: NfqwsBinding;

    /// A builder for the executable at `nfqws_path`, with no option yet.
    fn create(&self, nfqws_path: &str) -> (binding: Self::Binding)
        ensures
            binding.program() == nfqws_path@,
            binding.args() == Seq::<Seq<char>>::empty(),
    ;
}

} // verus!
