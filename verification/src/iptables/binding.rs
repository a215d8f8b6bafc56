//! The command builder for the rule tool.

use crate::error::BindingError;
use crate::iptables::traits::{IptablesBinding, IptablesBindingFactory};
use crate::process::{classify, copy_tokens, tokens, Invocation, ProcessResult};
use crate::text::decimal_string;
use vstd::prelude::*;
use vstd::string::*;

verus! {

/// One command line for the rule tool, in the making: the executable and the
/// tokens put behind it so far.
#[derive(Debug)]
pub struct IptablesCmd {
    path: String,
    command: Vec<String>,
}

impl IptablesCmd {
    /// A command line for the executable at `iptables_path`, with no argument
    /// yet.
    pub fn new(iptables_path: &str) -> (cmd: IptablesCmd)
        ensures
            cmd.program() == iptables_path@,
            cmd.args() == Seq::<Seq<char>>::empty(),
    {
        let cmd = IptablesCmd { path: iptables_path.to_owned(), command: Vec::new() };
        assert(cmd.args() =~= Seq::<Seq<char>>::empty());
        cmd
    }

    /// Puts one token behind those already there.
    fn arg(&mut self, arg: &str)
        ensures
            final(self).program() == old(self).program(),
            final(self).args() == old(self).args().push(arg@),
    {
        self.command.push(arg.to_owned());
        assert(self.args() =~= old(self).args().push(arg@));
    }
}

impl IptablesBinding for IptablesCmd {
    closed spec fn program(&self) -> Seq<char> {
        self.path@
    }

    closed spec fn args(&self) -> Seq<Seq<char>> {
        tokens(self.command@)
    }

    fn invocation(&self) -> (inv: Invocation) {
        Invocation { program: self.path.clone(), args: copy_tokens(&self.command) }
    }

    fn run(self, result: ProcessResult) -> (outcome: Result<(), BindingError>) {
        classify(result)
    }

    fn module(&mut self, module: &str) -> (ret: &mut Self) {
        self.arg("--match");
        self.arg(module);
        assert(self.args() =~= old(self).args() + seq!["--match"@, module@]);
        self
    }

    fn insert(&mut self, chain: &str) -> (ret: &mut Self) {
        self.arg("--insert");
        self.arg(chain);
        assert(self.args() =~= old(self).args() + seq!["--insert"@, chain@]);
        self
    }

    fn new_chain(&mut self, chain: &str) -> (ret: &mut Self) {
        self.arg("--new");
        self.arg(chain);
        assert(self.args() =~= old(self).args() + seq!["--new"@, chain@]);
        self
    }

    fn delete_chain(&mut self, chain: &str) -> (ret: &mut Self) {
        self.arg("--delete-chain");
        self.arg(chain);
        assert(self.args() =~= old(self).args() + seq!["--delete-chain"@, chain@]);
        self
    }

    fn delete(&mut self, chain: &str) -> (ret: &mut Self) {
        self.arg("--delete");
        self.arg(chain);
        assert(self.args() =~= old(self).args() + seq!["--delete"@, chain@]);
        self
    }

    fn flush(&mut self, chain: &str) -> (ret: &mut Self) {
        self.arg("--flush");
        self.arg(chain);
        assert(self.args() =~= old(self).args() + seq!["--flush"@, chain@]);
        self
    }

    fn table(&mut self, table: &str) -> (ret: &mut Self) {
        self.arg("--table");
        self.arg(table);
        assert(self.args() =~= old(self).args() + seq!["--table"@, table@]);
        self
    }

    fn protocol(&mut self, proto: &str) -> (ret: &mut Self) {
        self.arg("--protocol");
        self.arg(proto);
        assert(self.args() =~= old(self).args() + seq!["--protocol"@, proto@]);
        self
    }

    fn jump(&mut self, target: &str) -> (ret: &mut Self) {
        self.arg("--jump");
        self.arg(target);
        assert(self.args() =~= old(self).args() + seq!["--jump"@, target@]);
        self
    }

    fn dport(&mut self, port: &str) -> (ret: &mut Self) {
        self.arg("--dport");
        self.arg(port);
        assert(self.args() =~= old(self).args() + seq!["--dport"@, port@]);
        self
    }

    fn mark(&mut self, value: &str, invert: Option<bool>) -> (ret: &mut Self) {
        if let Some(true) = invert {
            self.arg("!");
        }
        self.arg("--mark");
        self.arg(value);
        assert(self.args() =~= old(self).args() + if invert == Some(true) {
            seq!["!"@, "--mark"@, value@]
        } else {
            seq!["--mark"@, value@]
        });
        self
    }

    fn connbytes(&mut self, value: &str, invert: Option<bool>) -> (ret: &mut Self) {
        if let Some(true) = invert {
            self.arg("!");
        }
        self.arg("--connbytes");
        self.arg(value);
        assert(self.args() =~= old(self).args() + if invert == Some(true) {
            seq!["!"@, "--connbytes"@, value@]
        } else {
            seq!["--connbytes"@, value@]
        });
        self
    }

    fn connbytes_dir(&mut self, value: &str) -> (ret: &mut Self) {
        self.arg("--connbytes-dir");
        self.arg(value);
        assert(self.args() =~= old(self).args() + seq!["--connbytes-dir"@, value@]);
        self
    }

    fn connbytes_mode(&mut self, value: &str) -> (ret: &mut Self) {
        self.arg("--connbytes-mode");
        self.arg(value);
        assert(self.args() =~= old(self).args() + seq!["--connbytes-mode"@, value@]);
        self
    }

    fn queue_num(&mut self, value: u16) -> (ret: &mut Self) {
        let value = decimal_string(value as u32);
        self.arg("--queue-num");
        self.arg(value.as_str());
        assert(self.args() =~= old(self).args() + seq!["--queue-num"@, value@]);
        self
    }

    fn queue_bypass(&mut self) -> (ret: &mut Self) {
        self.arg("--queue-bypass");
        assert(self.args() =~= old(self).args() + seq!["--queue-bypass"@]);
        self
    }
}

/// Makes builders of the kind that this library provides.
#[derive(Clone, Copy, Debug, Default)]
pub struct IptablesCmdFactory;

impl IptablesBindingFactory for IptablesCmdFactory {
    type Binding = IptablesCmd;

    fn create(&self, iptables_file: &str) -> (binding: IptablesCmd) {
        IptablesCmd::new(iptables_file)
    }
}

} // verus!
