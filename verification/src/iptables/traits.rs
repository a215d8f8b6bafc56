//! What a command builder for the rule tool offers, and the clauses it is
//! built from.

use crate::error::{outcome_view, BindingError};
use crate::process::{classification, CommandLine, Invocation, ProcessResult};
use crate::text::decimal;
use vstd::prelude::*;

verus! {

/// One clause of a command line for the rule tool: what one call of an appender
/// adds.
pub enum Clause {
    /// Load a match extension.
    Module(Seq<char>),
    /// Insert a rule at the head of a chain.
    Insert(Seq<char>),
    /// Create a user-defined chain.
    NewChain(Seq<char>),
    /// Delete a user-defined chain.
    DeleteChain(Seq<char>),
    /// Delete the matching rule from a chain.
    Delete(Seq<char>),
    /// Delete all rules of a chain.
    Flush(Seq<char>),
    /// The table to work on.
    Table(Seq<char>),
    /// The protocol to match.
    Protocol(Seq<char>),
    /// The target of the rule.
    Jump(Seq<char>),
    /// The destination port, or range of ports, to match.
    Dport(Seq<char>),
    /// Match the packet mark, or everything but it.
    Mark { value: Seq<char>, negated: bool },
    /// Match by what the connection has carried so far, or everything but it.
    Connbytes { value: Seq<char>, negated: bool },
    /// The direction in which `Connbytes` counts.
    ConnbytesDir(Seq<char>),
    /// What `Connbytes` counts.
    ConnbytesMode(Seq<char>),
    /// The queue that packets are sent to.
    QueueNum(u16),
    /// Let packets pass where no program listens on the queue.
    QueueBypass,
}

/// A flag and its value, with `!` before the flag where the clause is negated.
pub open spec fn negatable(flag: Seq<char>, value: Seq<char>, negated: bool) -> Seq<Seq<char>> {
    if negated {
        seq!["!"@, flag, value]
    } else {
        seq![flag, value]
    }
}

/// Negation is one token. A negated clause is `!` followed by what the clause
/// is without negation, and a clause that is not negated is its flag and its
/// value alone.
pub proof fn lemma_negation_is_one_token(flag: Seq<char>, value: Seq<char>)
    ensures
        negatable(flag, value, true) == seq!["!"@] + negatable(flag, value, false),
        negatable(flag, value, false) == seq![flag, value],
{
    assert(negatable(flag, value, true) =~= seq!["!"@] + negatable(flag, value, false));
}

impl Clause {
    /// The tokens that the clause puts on the command line.
    pub open spec fn tokens(self) -> Seq<Seq<char>> {
        match self {
            Clause::Module(module) => seq!["--match"@, module],
            Clause::Insert(chain) => seq!["--insert"@, chain],
            Clause::NewChain(chain) => seq!["--new"@, chain],
            Clause::DeleteChain(chain) => seq!["--delete-chain"@, chain],
            Clause::Delete(chain) => seq!["--delete"@, chain],
            Clause::Flush(chain) => seq!["--flush"@, chain],
            Clause::Table(table) => seq!["--table"@, table],
            Clause::Protocol(proto) => seq!["--protocol"@, proto],
            Clause::Jump(target) => seq!["--jump"@, target],
            Clause::Dport(port) => seq!["--dport"@, port],
            Clause::Mark { value, negated } => negatable("--mark"@, value, negated),
            Clause::Connbytes { value, negated } => negatable("--connbytes"@, value, negated),
            Clause::ConnbytesDir(value) => seq!["--connbytes-dir"@, value],
            Clause::ConnbytesMode(value) => seq!["--connbytes-mode"@, value],
            Clause::QueueNum(value) => seq!["--queue-num"@, decimal(value as nat)],
            Clause::QueueBypass => seq!["--queue-bypass"@],
        }
    }
}

/// The argument list of a command line: the tokens of its clauses, clause after
/// clause in the order in which they were added.
pub open spec fn render(clauses: Seq<Clause>) -> Seq<Seq<char>>
    decreases clauses.len(),
{
    if clauses.len() == 0 {
        Seq::empty()
    } else {
        render(clauses.drop_last()) + clauses.last().tokens()
    }
}

/// One more call of an appender puts the tokens of its clause behind those of
/// the calls before it, and changes none of them.
pub proof fn lemma_render_push(clauses: Seq<Clause>, clause: Clause)
    ensures
        render(clauses.push(clause)) == render(clauses) + clause.tokens(),
{
    assert(clauses.push(clause).drop_last() =~= clauses);
}

/// The tokens of two lists of clauses, one after the other, are those of the
/// first followed by those of the second.
pub proof fn lemma_render_concat(first: Seq<Clause>, second: Seq<Clause>)
    ensures
        render(first + second) == render(first) + render(second),
    decreases second.len(),
{
    if second.len() == 0 {
        assert(first + second =~= first);
        assert(render(first) + render(second) =~= render(first));
    } else {
        lemma_render_concat(first, second.drop_last());
        assert((first + second).drop_last() =~= first + second.drop_last());
        assert(render(first + second) =~= render(first) + render(second));
    }
}

/// A builder of one command line for the rule tool. Each appender puts the
/// tokens of one clause behind those already there and hands the builder back,
/// so that calls chain. `run` ends the builder's life.
pub trait IptablesBinding: Sized {
    /// The path of the executable.
    spec fn program(&self) -> Seq<char>;

    /// The arguments added so far, in the order of the calls.
    spec fn args(&self) -> Seq<Seq<char>>;

    /// The command line as it stands: what is to be executed.
    fn invocation(&self) -> (inv: Invocation)
        ensures
            inv@ == (CommandLine { program: self.program(), args: self.args() }),
    ;

    /// Consumes the builder and classifies what its execution came to.
    fn run(self, result: ProcessResult) -> (outcome: Result<(), BindingError>)
        ensures
            outcome_view(outcome) == classification(result@),
    ;

    /// Load extension `module`.
    fn module(&mut self, module: &str) -> (ret: &mut Self)
        ensures
            ret.program() == old(self).program(),
            ret.args() == old(self).args() + Clause::Module(module@).tokens(),
            *final(self) == *final(ret),
    ;

    /// Insert at the head of `chain`.
    fn insert(&mut self, chain: &str) -> (ret: &mut Self)
        ensures
            ret.program() == old(self).program(),
            ret.args() == old(self).args() + Clause::Insert(chain@).tokens(),
            *final(self) == *final(ret),
    ;

    /// Create the user-defined chain `chain`.
    fn new_chain(&mut self, chain: &str) -> (ret: &mut Self)
        ensures
            ret.program() == old(self).program(),
            ret.args() == old(self).args() + Clause::NewChain(chain@).tokens(),
            *final(self) == *final(ret),
    ;

    /// Delete the user-defined chain `chain`.
    fn delete_chain(&mut self, chain: &str) -> (ret: &mut Self)
        ensures
            ret.program() == old(self).program(),
            ret.args() == old(self).args() + Clause::DeleteChain(chain@).tokens(),
            *final(self) == *final(ret),
    ;

    /// Delete all rules of `chain`.
    fn flush(&mut self, chain: &str) -> (ret: &mut Self)
        ensures
            ret.program() == old(self).program(),
            ret.args() == old(self).args() + Clause::Flush(chain@).tokens(),
            *final(self) == *final(ret),
    ;

    /// Delete the matching rule from `chain`.
    fn delete(&mut self, chain: &str) -> (ret: &mut Self)
        ensures
            ret.program() == old(self).program(),
            ret.args() == old(self).args() + Clause::Delete(chain@).tokens(),
            *final(self) == *final(ret),
    ;

    /// Work on `table`.
    fn table(&mut self, table: &str) -> (ret: &mut Self)
        ensures
            ret.program() == old(self).program(),
            ret.args() == old(self).args() + Clause::Table(table@).tokens(),
            *final(self) == *final(ret),
    ;

    /// Match protocol `proto`.
    fn protocol(&mut self, proto: &str) -> (ret: &mut Self)
        ensures
            ret.program() == old(self).program(),
            ret.args() == old(self).args() + Clause::Protocol(proto@).tokens(),
            *final(self) == *final(ret),
    ;

    /// Jump to `target`.
    fn jump(&mut self, target: &str) -> (ret: &mut Self)
        ensures
            ret.program() == old(self).program(),
            ret.args() == old(self).args() + Clause::Jump(target@).tokens(),
            *final(self) == *final(ret),
    ;

    /// Match destination port `port`: a port (`80`) or a range (`22:80`).
    fn dport(&mut self, port: &str) -> (ret: &mut Self)
        ensures
            ret.program() == old(self).program(),
            ret.args() == old(self).args() + Clause::Dport(port@).tokens(),
            *final(self) == *final(ret),
    ;

    /// Match the packet mark `value`, which may carry a mask. With `invert`
    /// set and true, match everything but that mark: one `!` then stands
    /// directly before the flag.
    fn mark(&mut self, value: &str, invert: Option<bool>) -> (ret: &mut Self)
        ensures
            ret.program() == old(self).program(),
            ret.args() == old(self).args() + (Clause::Mark {
                value: value@,
                negated: invert == Some(true),
            }).tokens(),
            *final(self) == *final(ret),
    ;

    /// Match connections by the range `value` of what they have carried. With
    /// `invert` set and true, match everything outside it: one `!` then stands
    /// directly before the flag.
    fn connbytes(&mut self, value: &str, invert: Option<bool>) -> (ret: &mut Self)
        ensures
            ret.program() == old(self).program(),
            ret.args() == old(self).args() + (Clause::Connbytes {
                value: value@,
                negated: invert == Some(true),
            }).tokens(),
            *final(self) == *final(ret),
    ;

    /// Count in direction `value`.
    fn connbytes_dir(&mut self, value: &str) -> (ret: &mut Self)
        ensures
            ret.program() == old(self).program(),
            ret.args() == old(self).args() + Clause::ConnbytesDir(value@).tokens(),
            *final(self) == *final(ret),
    ;

    /// Count in the unit `value`.
    fn connbytes_mode(&mut self, value: &str) -> (ret: &mut Self)
        ensures
            ret.program() == old(self).program(),
            ret.args() == old(self).args() + Clause::ConnbytesMode(value@).tokens(),
            *final(self) == *final(ret),
    ;

    /// Send packets to queue `value`.
    fn queue_num(&mut self, value: u16) -> (ret: &mut Self)
        ensures
            ret.program() == old(self).program(),
            ret.args() == old(self).args() + Clause::QueueNum(value).tokens(),
            *final(self) == *final(ret),
    ;

    /// Let packets pass where no program listens on the queue.
    fn queue_bypass(&mut self) -> (ret: &mut Self)
        ensures
            ret.program() == old(self).program(),
            ret.args() == old(self).args() + Clause::QueueBypass.tokens(),
            *final(self) == *final(ret),
    ;
}

/// A maker of builders for the rule tool.
pub trait IptablesBindingFactory {
    type Binding: IptablesBinding;

    /// A builder for the executable at `iptables_file`, with no clause yet.
    fn create(&self, iptables_file: &str) -> (binding: Self::Binding)
        ensures
            binding.program() == iptables_file@,
            binding.args() == Seq::<Seq<char>>::empty(),
    ;
}

} // verus!
