//! Starting, stopping and finding the queue processor.
//!
//! The processor runs detached and no handle to it is kept: it is stopped and
//! found by its name, through two utilities of the system. Each operation is
//! one invocation; the caller executes the command line and hands back what the
//! process returned.

use crate::error::{in_operation, operation_view, Operation, OperationError};
use crate::nfqws::binding::{by_name, pgrep, pgrep_outcome, pkill, pkill_outcome, NfqwsCmdFactory};
use crate::nfqws::enums::{FilterMode, Platform};
use crate::nfqws::traits::{lemma_render_concat, render, Flag, NfqwsBinding, NfqwsBindingFactory};
use crate::process::{classification, tokens, CommandLine, Invocation, ProcessResult};
use vstd::prelude::*;
use vstd::string::*;

verus! {

/// The queue that the processor reads from.
pub const QUEUE_NUM: u16 = 200;

/// Where the processor logs: to its standard streams.
pub const NFQWS_LOGMODE: &'static str = "1";

/// The mark that the processor puts on packets it sends itself.
pub const FWMARK_VALUE: &'static str = "0x40000000";

/// The user and group that the processor runs as.
pub const UID_VALUE: &'static str = "0:0";

/// The name under which the processor's process is found.
pub const NFQWS_PROCESS_NAME: &'static str = "nfqws";

/// The option that stands for the host lists chosen by the filter mode.
pub const FILTER_MODE_PLACEHOLDER: &'static str = "<FILTER_MODE>";

/// How many failures put a host on the list that the processor fills itself.
pub const AUTO_FAIL_THRESHOLD: u32 = 3;

/// Within how many seconds those failures must fall.
pub const AUTO_FAIL_TIME: u32 = 60;

/// How many retransmissions count as a failure.
pub const AUTO_RETRANS_THRESHOLD: u32 = 3;

/// Where the list of hosts to act on is kept.
pub open spec fn hostlist_path(platform: Platform) -> Seq<char> {
    match platform {
        Platform::Android => "/data/adb/zapret-ux/hosts.txt"@,
        Platform::Other => "/opt/zapret-ux/hosts.txt"@,
    }
}

/// Where the list of hosts to leave alone is kept.
pub open spec fn hostlist_exclude_path(platform: Platform) -> Seq<char> {
    match platform {
        Platform::Android => "/data/adb/zapret-ux/hosts-exclude.txt"@,
        Platform::Other => "/opt/zapret-ux/hosts-exclude.txt"@,
    }
}

/// Where the list that the processor fills itself is kept.
pub open spec fn hostlist_auto_path(platform: Platform) -> Seq<char> {
    match platform {
        Platform::Android => "/data/adb/zapret-ux/hosts-auto.txt"@,
        Platform::Other => "/opt/zapret-ux/hosts-auto.txt"@,
    }
}

/// The options that a filter mode stands for.
pub open spec fn hostlist_flags(filter_mode: FilterMode, platform: Platform) -> Seq<Flag> {
    match filter_mode {
        FilterMode::AutoHostFile => seq![
            Flag::Hostlist(hostlist_path(platform)),
            Flag::HostlistExclude(hostlist_exclude_path(platform)),
            Flag::HostlistAuto(hostlist_auto_path(platform)),
            Flag::HostlistAutoFailThreshold(AUTO_FAIL_THRESHOLD),
            Flag::HostlistAutoFailTime(AUTO_FAIL_TIME),
            Flag::HostlistAutoRetransThreshold(AUTO_RETRANS_THRESHOLD),
        ],
        FilterMode::HostFile => seq![
            Flag::Hostlist(hostlist_path(platform)),
            Flag::HostlistExclude(hostlist_exclude_path(platform)),
        ],
        FilterMode::Disabled => Seq::empty(),
    }
}

/// The options that one token given by the caller stands for: the placeholder
/// gives way to the host lists of the filter mode, and any other token is
/// handed through as it is.
pub open spec fn option_flags(opt: Seq<char>, filter_mode: FilterMode, platform: Platform) -> Seq<
    Flag,
> {
    if opt == FILTER_MODE_PLACEHOLDER@ {
        hostlist_flags(filter_mode, platform)
    } else {
        seq![Flag::Custom(seq![opt])]
    }
}

/// The options that the tokens given by the caller stand for, in their order.
pub open spec fn options_flags(
    opts: Seq<Seq<char>>,
    filter_mode: FilterMode,
    platform: Platform,
) -> Seq<Flag>
    decreases opts.len(),
{
    if opts.len() == 0 {
        Seq::empty()
    } else {
        options_flags(opts.drop_last(), filter_mode, platform) + option_flags(
            opts.last(),
            filter_mode,
            platform,
        )
    }
}

/// The options that every start of the processor begins with.
pub open spec fn fixed_flags(mark_supported: bool) -> Seq<Flag> {
    let fixed = seq![
        Flag::Debug(NFQWS_LOGMODE@),
        Flag::Daemon,
        Flag::Qnum(QUEUE_NUM),
        Flag::Uid(UID_VALUE@),
    ];
    if mark_supported {
        fixed.push(Flag::DpiDesyncFwmark(FWMARK_VALUE@))
    } else {
        fixed
    }
}

/// The options that the processor is started with.
pub open spec fn start_flags(
    mark_supported: bool,
    opts: Seq<Seq<char>>,
    filter_mode: FilterMode,
    platform: Platform,
) -> Seq<Flag> {
    fixed_flags(mark_supported) + options_flags(opts, filter_mode, platform)
}

/// Starts, stops and finds the queue processor.
#[derive(Debug)]
pub struct Nfqws<F: NfqwsBindingFactory = NfqwsCmdFactory> {
    nfqws_path: String,
    pgrep_path: String,
    pkill_path: String,
    mark_supported: bool,
    filter_mode: FilterMode,
    platform: Platform,
    factory: F,
}

/// Software that drains the queue: a daemon that is started, stopped and
/// found, each by one invocation. The trait fixes the shape of the exchange
/// with the caller; which command lines are built and how the answers are
/// read is stated by the software that implements it.
pub trait BypassSoftware {
    type Binding: NfqwsBinding;

    /// The command line that starts the daemon with the options `opt`.
    fn run_command(&self, opt: &Vec<String>) -> Self::Binding;

    /// Reads what the start, made with `binding`, came to.
    fn run(&self, binding: Self::Binding, result: ProcessResult) -> Result<(), OperationError>;

    /// The command line that stops the daemon.
    fn kill_command(&self) -> Invocation;

    /// Reads what the stop came to.
    fn kill(&self, result: ProcessResult) -> Result<(), OperationError>;

    /// The command line that looks for the daemon.
    fn is_running_command(&self) -> Invocation;

    /// Reads what the search came to: whether the daemon is running.
    fn is_running(&self, result: ProcessResult) -> Result<bool, OperationError>;
}

fn hostlist_file(platform: Platform) -> (path: &'static str)
    ensures
        path@ == hostlist_path(platform),
{
    match platform {
        Platform::Android => "/data/adb/zapret-ux/hosts.txt",
        Platform::Other => "/opt/zapret-ux/hosts.txt",
    }
}

fn hostlist_exclude_file(platform: Platform) -> (path: &'static str)
    ensures
        path@ == hostlist_exclude_path(platform),
{
    match platform {
        Platform::Android => "/data/adb/zapret-ux/hosts-exclude.txt",
        Platform::Other => "/opt/zapret-ux/hosts-exclude.txt",
    }
}

fn hostlist_auto_file(platform: Platform) -> (path: &'static str)
    ensures
        path@ == hostlist_auto_path(platform),
{
    match platform {
        Platform::Android => "/data/adb/zapret-ux/hosts-auto.txt",
        Platform::Other => "/opt/zapret-ux/hosts-auto.txt",
    }
}

impl Nfqws<NfqwsCmdFactory> {
    /// A supervisor for the processor at `nfqws_path`, which finds processes
    /// with the utility at `pgrep_path` and signals them with the one at
    /// `pkill_path`. The host lists are looked for where systems other than
    /// Android keep them.
    pub fn new(
        nfqws_path: &str,
        pgrep_path: &str,
        pkill_path: &str,
        mark_supported: bool,
        filter_mode: FilterMode,
    ) -> (nfqws: Self)
        ensures
            nfqws.nfqws_file() == nfqws_path@,
            nfqws.pgrep_file() == pgrep_path@,
            nfqws.pkill_file() == pkill_path@,
            nfqws.mark_supported() == mark_supported,
            nfqws.filter_mode() == filter_mode,
            nfqws.platform() == Platform::Other,
    {
        Nfqws {
            nfqws_path: nfqws_path.to_owned(),
            pgrep_path: pgrep_path.to_owned(),
            pkill_path: pkill_path.to_owned(),
            mark_supported,
            filter_mode,
            platform: Platform::Other,
            factory: NfqwsCmdFactory,
        }
    }
}

impl<F: NfqwsBindingFactory> Nfqws<F> {
    /// The path of the processor.
    pub closed spec fn nfqws_file(&self) -> Seq<char> {
        self.nfqws_path@
    }

    /// The path of the utility that finds processes by name.
    pub closed spec fn pgrep_file(&self) -> Seq<char> {
        self.pgrep_path@
    }

    /// The path of the utility that signals processes by name.
    pub closed spec fn pkill_file(&self) -> Seq<char> {
        self.pkill_path@
    }

    /// Whether the processor is told which mark to put on its packets.
    pub closed spec fn mark_supported(&self) -> bool {
        self.mark_supported
    }

    /// Which host lists the processor is started with.
    pub closed spec fn filter_mode(&self) -> FilterMode {
        self.filter_mode
    }

    /// The kind of system, which decides where the host lists are kept.
    pub closed spec fn platform(&self) -> Platform {
        self.platform
    }

    /// A supervisor that makes its command lines with `factory`.
    pub fn with_factory(
        factory: F,
        nfqws_path: &str,
        pgrep_path: &str,
        pkill_path: &str,
        mark_supported: bool,
        filter_mode: FilterMode,
    ) -> (nfqws: Self)
        ensures
            nfqws.nfqws_file() == nfqws_path@,
            nfqws.pgrep_file() == pgrep_path@,
            nfqws.pkill_file() == pkill_path@,
            nfqws.mark_supported() == mark_supported,
            nfqws.filter_mode() == filter_mode,
            nfqws.platform() == Platform::Other,
    {
        Nfqws {
            nfqws_path: nfqws_path.to_owned(),
            pgrep_path: pgrep_path.to_owned(),
            pkill_path: pkill_path.to_owned(),
            mark_supported,
            filter_mode,
            platform: Platform::Other,
            factory,
        }
    }

    /// The same supervisor on a system of kind `platform`.
    pub fn on_platform(self, platform: Platform) -> (nfqws: Self)
        ensures
            nfqws.nfqws_file() == self.nfqws_file(),
            nfqws.pgrep_file() == self.pgrep_file(),
            nfqws.pkill_file() == self.pkill_file(),
            nfqws.mark_supported() == self.mark_supported(),
            nfqws.filter_mode() == self.filter_mode(),
            nfqws.platform() == platform,
    {
        Nfqws {
            nfqws_path: self.nfqws_path,
            pgrep_path: self.pgrep_path,
            pkill_path: self.pkill_path,
            mark_supported: self.mark_supported,
            filter_mode: self.filter_mode,
            platform,
            factory: self.factory,
        }
    }

    /// Puts the host lists of the filter mode on `binding`.
    fn hostlists<B: NfqwsBinding>(&self, binding: &mut B)
        ensures
            final(binding).program() == old(binding).program(),
            final(binding).args() == old(binding).args() + render(
                hostlist_flags(self.filter_mode(), self.platform()),
            ),
    {
        proof {
            reveal_with_fuel(render, 7);
        }
        match self.filter_mode {
            FilterMode::AutoHostFile => {
                binding.hostlist(hostlist_file(self.platform)).hostlist_exclude(
                    hostlist_exclude_file(self.platform),
                ).hostlist_auto(hostlist_auto_file(self.platform)).hostlist_auto_fail_threshold(
                    AUTO_FAIL_THRESHOLD,
                ).hostlist_auto_fail_time(AUTO_FAIL_TIME).hostlist_auto_retrans_threshold(
                    AUTO_RETRANS_THRESHOLD,
                );
            },
            FilterMode::HostFile => {
                binding.hostlist(hostlist_file(self.platform)).hostlist_exclude(
                    hostlist_exclude_file(self.platform),
                );
            },
            FilterMode::Disabled => {},
        }
        assert(binding.args() =~= old(binding).args() + render(
            hostlist_flags(self.filter_mode(), self.platform()),
        ));
    }

    /// Puts the options `opt` on `binding`, each token as it is, but for the
    /// placeholder, in whose place the host lists of the filter mode go.
    pub fn parse_opt<B: NfqwsBinding>(&self, binding: &mut B, opt: &Vec<String>)
        ensures
            final(binding).program() == old(binding).program(),
            final(binding).args() == old(binding).args() + render(
                options_flags(tokens(opt@), self.filter_mode(), self.platform()),
            ),
    {
        let placeholder = FILTER_MODE_PLACEHOLDER.to_owned();
        let n: usize = opt.len();
        let mut i: usize = 0;
        assert(tokens(opt@).take(0) =~= Seq::<Seq<char>>::empty());
        assert(binding.args() + Seq::<Seq<char>>::empty() =~= binding.args());
        while i < n
            invariant
                i <= n,
                n == opt.len(),
                placeholder@ == FILTER_MODE_PLACEHOLDER@,
                binding.program() == old(binding).program(),
                binding.args() == old(binding).args() + render(
                    options_flags(
                        tokens(opt@).take(i as int),
                        self.filter_mode(),
                        self.platform(),
                    ),
                ),
            decreases n - i,
        {
            let ghost before = tokens(opt@).take(i as int);
            let ghost token = opt@[i as int]@;
            proof {
                assert(tokens(opt@).take(i + 1).drop_last() =~= before);
                assert(tokens(opt@).take(i + 1).last() == token);
                lemma_render_concat(
                    options_flags(before, self.filter_mode(), self.platform()),
                    option_flags(token, self.filter_mode(), self.platform()),
                );
            }
            if opt[i] == placeholder {
                self.hostlists(binding);
            } else {
                let mut single: Vec<String> = Vec::new();
                single.push(opt[i].clone());
                binding.custom_args(&single);
                proof {
                    reveal_with_fuel(render, 2);
                    assert(tokens(single@) =~= seq![token]);
                }
            }
            assert(binding.args() =~= old(binding).args() + render(
                options_flags(tokens(opt@).take(i + 1), self.filter_mode(), self.platform()),
            ));
            i += 1;
        }
        assert(tokens(opt@).take(n as int) =~= tokens(opt@));
    }
}

impl<F: NfqwsBindingFactory> BypassSoftware for Nfqws<F> {
    type Binding = F::Binding;

    /// The command line that starts the processor: the fixed options, then
    /// what `opt` stands for.
    fn run_command(&self, opt: &Vec<String>) -> (binding: F::Binding)
        ensures
            binding.program() == self.nfqws_file(),
            binding.args() == render(
                start_flags(
                    self.mark_supported(),
                    tokens(opt@),
                    self.filter_mode(),
                    self.platform(),
                ),
            ),
    {
        let mut binding = self.factory.create(self.nfqws_path.as_str());
        binding.debug(NFQWS_LOGMODE).daemon().qnum(QUEUE_NUM).uid(UID_VALUE);
        if self.mark_supported {
            binding.dpi_desync_fwmark(FWMARK_VALUE);
        }
        proof {
            reveal_with_fuel(render, 6);
            assert(binding.args() =~= render(fixed_flags(self.mark_supported())));
            lemma_render_concat(
                fixed_flags(self.mark_supported()),
                options_flags(tokens(opt@), self.filter_mode(), self.platform()),
            );
        }
        self.parse_opt(&mut binding, opt);
        binding
    }

    /// Reads what the start came to: the classification of the execution, a
    /// failure put under the name of the start.
    fn run(&self, binding: F::Binding, result: ProcessResult) -> (outcome: Result<
        (),
        OperationError,
    >)
        ensures
            operation_view(outcome) == in_operation(
                Operation::StartProcess,
                classification(result@),
            ),
    {
        match binding.run(result) {
            Ok(()) => Ok(()),
            Err(cause) => Err(OperationError { operation: Operation::StartProcess, cause }),
        }
    }

    /// The command line that stops the processor: the utility that signals by
    /// name, with the processor's name.
    fn kill_command(&self) -> (inv: Invocation)
        ensures
            inv@ == (CommandLine { program: self.pkill_file(), args: seq![NFQWS_PROCESS_NAME@] }),
    {
        by_name(self.pkill_path.as_str(), NFQWS_PROCESS_NAME)
    }

    /// Reads what the stop came to. Any exit code but zero is a failure, also
    /// the one that says that no such process was there.
    fn kill(&self, result: ProcessResult) -> (outcome: Result<(), OperationError>)
        ensures
            operation_view(outcome) == in_operation(
                Operation::KillProcess,
                pkill_outcome(result@),
            ),
    {
        match pkill(result) {
            Ok(()) => Ok(()),
            Err(cause) => Err(OperationError { operation: Operation::KillProcess, cause }),
        }
    }

    /// The command line that looks for the processor: the utility that finds
    /// by name, with the processor's name.
    fn is_running_command(&self) -> (inv: Invocation)
        ensures
            inv@ == (CommandLine { program: self.pgrep_file(), args: seq![NFQWS_PROCESS_NAME@] }),
    {
        by_name(self.pgrep_path.as_str(), NFQWS_PROCESS_NAME)
    }

    /// Reads what the search came to: running on exit code zero, not running
    /// on exit code one, and a failure on anything else.
    fn is_running(&self, result: ProcessResult) -> (outcome: Result<bool, OperationError>)
        ensures
            operation_view(outcome) == in_operation(
                Operation::SearchProcess,
                pgrep_outcome(result@),
            ),
    {
        match pgrep(result) {
            Ok(found) => Ok(found),
            Err(cause) => Err(OperationError { operation: Operation::SearchProcess, cause }),
        }
    }
}

} // verus!
