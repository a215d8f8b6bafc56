//! The rule set: which command lines install and remove it.

use crate::iptables::binding::IptablesCmdFactory;
use crate::iptables::enums::PortSpec;
use crate::iptables::traits::{
    lemma_render_concat, render, Clause, IptablesBinding, IptablesBindingFactory,
};
use vstd::prelude::*;
use vstd::string::*;

verus! {

/// The queue that matching packets are sent to.
pub const QUEUE_NUM: u16 = 200;

/// The mark, with its mask, that the queue's consumer puts on packets it has
/// handled.
pub const MARK_VALUE: &'static str = "0x40000000/0x40000000";

/// The window of a connection's first packets that is sent to the queue.
pub const CONNBYTES_VALUE: &'static str = "1:6";

/// The direction in which that window is counted.
pub const CONNBYTES_DIR_VALUE: &'static str = "origin";

/// The unit in which that window is counted.
pub const CONNBYTES_MODE_VALUE: &'static str = "packets";

/// The dedicated chain that holds the redirect rules.
pub const CHAIN_NAME: &'static str = "ZAPRET_UX";

/// The clauses that create the dedicated chain.
pub open spec fn create_chain_clauses() -> Seq<Clause> {
    seq![Clause::Table("mangle"@), Clause::NewChain(CHAIN_NAME@)]
}

/// The clauses that make all outgoing traffic pass through the dedicated chain.
pub open spec fn add_jump_clauses() -> Seq<Clause> {
    seq![Clause::Table("mangle"@), Clause::Insert("POSTROUTING"@), Clause::Jump(CHAIN_NAME@)]
}

/// The clauses that send the traffic of one port specification to the queue,
/// letting it pass where nothing listens there.
pub open spec fn redirect_clauses(port_spec: PortSpec) -> Seq<Clause> {
    seq![
        Clause::Table("mangle"@),
        Clause::Insert(CHAIN_NAME@),
        Clause::Protocol(port_spec.protocol.text()),
        Clause::Module(port_spec.protocol.text()),
        Clause::Dport(port_spec.port.text()),
        Clause::Jump("NFQUEUE"@),
        Clause::QueueNum(QUEUE_NUM),
        Clause::QueueBypass,
    ]
}

/// The clauses that leave out packets which the queue's consumer has marked as
/// handled; none where mark matching is not supported.
pub open spec fn mark_clauses(mark_supported: bool) -> Seq<Clause> {
    if mark_supported {
        seq![Clause::Module("mark"@), Clause::Mark { value: MARK_VALUE@, negated: true }]
    } else {
        Seq::empty()
    }
}

/// The clauses that keep the match to the first packets of a connection; none
/// where matching by packet count is not supported.
pub open spec fn connbytes_clauses(connbytes_supported: bool) -> Seq<Clause> {
    if connbytes_supported {
        seq![
            Clause::Module("connbytes"@),
            Clause::Connbytes { value: CONNBYTES_VALUE@, negated: false },
            Clause::ConnbytesDir(CONNBYTES_DIR_VALUE@),
            Clause::ConnbytesMode(CONNBYTES_MODE_VALUE@),
        ]
    } else {
        Seq::empty()
    }
}

/// The clauses of the redirect rule for one port specification.
pub open spec fn port_rule_clauses(
    port_spec: PortSpec,
    mark_supported: bool,
    connbytes_supported: bool,
) -> Seq<Clause> {
    redirect_clauses(port_spec) + mark_clauses(mark_supported) + connbytes_clauses(
        connbytes_supported,
    )
}

/// The clauses that delete the jump to the dedicated chain.
pub open spec fn delete_jump_clauses() -> Seq<Clause> {
    seq![Clause::Table("mangle"@), Clause::Delete("POSTROUTING"@), Clause::Jump(CHAIN_NAME@)]
}

/// The clauses that empty the dedicated chain.
pub open spec fn flush_chain_clauses() -> Seq<Clause> {
    seq![Clause::Table("mangle"@), Clause::Flush(CHAIN_NAME@)]
}

/// The clauses that delete the dedicated chain.
pub open spec fn delete_chain_clauses() -> Seq<Clause> {
    seq![Clause::Table("mangle"@), Clause::DeleteChain(CHAIN_NAME@)]
}

/// Installs and removes the rule set through the rule tool at a given path.
#[derive(Debug)]
pub struct Iptables<F: IptablesBindingFactory = IptablesCmdFactory> {
    factory: F,
    iptables_file: String,
    mark_supported: bool,
    connbytes_supported: bool,
}

impl Iptables<IptablesCmdFactory> {
    /// A manager for the rule tool at `iptables_file`. The two flags say which
    /// optional matches the tool on this system supports.
    pub fn new(iptables_file: &str, mark_supported: bool, connbytes_supported: bool) -> (fw: Self)
        ensures
            fw.file() == iptables_file@,
            fw.mark_supported() == mark_supported,
            fw.connbytes_supported() == connbytes_supported,
    {
        Iptables {
            factory: IptablesCmdFactory,
            iptables_file: iptables_file.to_owned(),
            mark_supported,
            connbytes_supported,
        }
    }
}

impl<F: IptablesBindingFactory> Iptables<F> {
    /// The path of the rule tool.
    pub closed spec fn file(&self) -> Seq<char> {
        self.iptables_file@
    }

    /// Whether rules match on the packet mark.
    pub closed spec fn mark_supported(&self) -> bool {
        self.mark_supported
    }

    /// Whether rules match on the packet count of a connection.
    pub closed spec fn connbytes_supported(&self) -> bool {
        self.connbytes_supported
    }

    /// A manager that makes its command lines with `factory`.
    pub fn with_factory(
        factory: F,
        iptables_file: &str,
        mark_supported: bool,
        connbytes_supported: bool,
    ) -> (fw: Self)
        ensures
            fw.file() == iptables_file@,
            fw.mark_supported() == mark_supported,
            fw.connbytes_supported() == connbytes_supported,
    {
        Iptables {
            factory,
            iptables_file: iptables_file.to_owned(),
            mark_supported,
            connbytes_supported,
        }
    }

    /// The command line that creates the dedicated chain.
    pub fn create_chain(&self) -> (binding: F::Binding)
        ensures
            binding.program() == self.file(),
            binding.args() == render(create_chain_clauses()),
    {
        let mut binding = self.factory.create(self.iptables_file.as_str());
        binding.table("mangle").new_chain(CHAIN_NAME);
        proof {
            reveal_with_fuel(render, 9);

            assert(binding.args() =~= render(create_chain_clauses()));
        }
        binding
    }

    /// The command line that puts the jump to the dedicated chain at the head
    /// of POSTROUTING.
    pub fn add_jump_rule(&self) -> (binding: F::Binding)
        ensures
            binding.program() == self.file(),
            binding.args() == render(add_jump_clauses()),
    {
        let mut binding = self.factory.create(self.iptables_file.as_str());
        binding.table("mangle").insert("POSTROUTING").jump(CHAIN_NAME);
        proof {
            reveal_with_fuel(render, 9);

            assert(binding.args() =~= render(add_jump_clauses()));
        }
        binding
    }

    /// The command line that adds the redirect rule for `port_spec`.
    pub fn add_port_rule(&self, port_spec: &PortSpec) -> (binding: F::Binding)
        ensures
            binding.program() == self.file(),
            binding.args() == render(
                port_rule_clauses(*port_spec, self.mark_supported(), self.connbytes_supported()),
            ),
    {
        let mut binding = self.factory.create(self.iptables_file.as_str());
        binding.table("mangle").insert(CHAIN_NAME).protocol(port_spec.protocol.as_str()).module(
            port_spec.protocol.as_str(),
        ).dport(port_spec.port.to_string().as_str()).jump("NFQUEUE").queue_num(
            QUEUE_NUM,
        ).queue_bypass();
        proof {
            reveal_with_fuel(render, 9);

            assert(binding.args() =~= render(redirect_clauses(*port_spec)));
        }
        if self.mark_supported {
            binding.module("mark").mark(MARK_VALUE, Some(true));
        }
        proof {
            reveal_with_fuel(render, 9);

            assert(binding.args() =~= render(redirect_clauses(*port_spec)) + render(
                mark_clauses(self.mark_supported),
            ));
        }
        if self.connbytes_supported {
            binding.module("connbytes").connbytes(CONNBYTES_VALUE, None).connbytes_dir(
                CONNBYTES_DIR_VALUE,
            ).connbytes_mode(CONNBYTES_MODE_VALUE);
        }
        proof {
            reveal_with_fuel(render, 9);

            assert(binding.args() =~= render(redirect_clauses(*port_spec)) + render(
                mark_clauses(self.mark_supported),
            ) + render(connbytes_clauses(self.connbytes_supported)));
            lemma_render_concat(redirect_clauses(*port_spec), mark_clauses(self.mark_supported));
            lemma_render_concat(
                redirect_clauses(*port_spec) + mark_clauses(self.mark_supported),
                connbytes_clauses(self.connbytes_supported),
            );
        }
        binding
    }

    /// The command line that deletes the jump to the dedicated chain.
    pub fn delete_jump_rule(&self) -> (binding: F::Binding)
        ensures
            binding.program() == self.file(),
            binding.args() == render(delete_jump_clauses()),
    {
        let mut binding = self.factory.create(self.iptables_file.as_str());
        binding.table("mangle").delete("POSTROUTING").jump(CHAIN_NAME);
        proof {
            reveal_with_fuel(render, 9);

            assert(binding.args() =~= render(delete_jump_clauses()));
        }
        binding
    }

    /// The command line that empties the dedicated chain.
    pub fn flush_chain(&self) -> (binding: F::Binding)
        ensures
            binding.program() == self.file(),
            binding.args() == render(flush_chain_clauses()),
    {
        let mut binding = self.factory.create(self.iptables_file.as_str());
        binding.table("mangle").flush(CHAIN_NAME);
        proof {
            reveal_with_fuel(render, 9);

            assert(binding.args() =~= render(flush_chain_clauses()));
        }
        binding
    }

    /// The command line that deletes the dedicated chain.
    pub fn delete_chain(&self) -> (binding: F::Binding)
        ensures
            binding.program() == self.file(),
            binding.args() == render(delete_chain_clauses()),
    {
        let mut binding = self.factory.create(self.iptables_file.as_str());
        binding.table("mangle").delete_chain(CHAIN_NAME);
        proof {
            reveal_with_fuel(render, 9);

            assert(binding.args() =~= render(delete_chain_clauses()));
        }
        binding
    }
}

} // verus!
