//! Installing and removing the rule set, one invocation at a time.
//!
//! Neither operation keeps a record of what is installed. Each decides from
//! what the rule tool answered to the invocation before, so the caller runs a
//! loop: execute the command line handed out, classify what the process
//! returned, hand the outcome back, until the operation is done.

use crate::error::{
    operation_view, outcome_view, BindingError, BindingErrorView, Operation, OperationError,
    OperationErrorView,
};
use crate::iptables::enums::PortSpec;
use crate::iptables::rules::{
    add_jump_clauses, create_chain_clauses, delete_chain_clauses, delete_jump_clauses,
    flush_chain_clauses, port_rule_clauses, Iptables,
};
use crate::iptables::traits::{render, Clause, IptablesBinding, IptablesBindingFactory};
use vstd::prelude::*;

verus! {

/// The invocation that an install is waiting for.
#[derive(Clone, Copy, Debug, PartialEq, Eq, Structural)]
pub enum SetupStage {
    /// The dedicated chain is being created.
    CreateChain,
    /// The jump to the dedicated chain is being added.
    JumpRule,
    /// The redirect rule for the port specification at this index is being
    /// added.
    PortRule(usize),
}

/// An install under way: the port specifications asked for, and the invocation
/// whose outcome is awaited.
#[derive(Debug)]
pub struct Setup {
    ports: Vec<PortSpec>,
    stage: SetupStage,
}

/// What an install does next.
#[derive(Debug)]
pub enum SetupStep<B> {
    /// Execute this command line, and hand its outcome to `setup_next` together
    /// with this state.
    Invoke(Setup, B),
    /// The install is over.
    Done(Result<(), OperationError>),
}

/// What an install does next, as the decision alone.
pub enum SetupPlan {
    Invoke(SetupStage),
    Done(Result<(), OperationErrorView>),
}

/// The invocation that a removal is waiting for.
#[derive(Clone, Copy, Debug, PartialEq, Eq, Structural)]
pub enum CleanStage {
    /// The jump to the dedicated chain is being deleted.
    DeleteJump,
    /// The dedicated chain is being emptied.
    FlushChain,
    /// The dedicated chain is being deleted.
    DeleteChain,
}

/// What a removal does next.
#[derive(Debug)]
pub enum CleanStep<B> {
    /// Execute this command line, and hand its outcome to `clean_next` together
    /// with this stage.
    Invoke(CleanStage, B),
    /// The removal is over.
    Done(Result<(), OperationError>),
}

/// What a removal does next, as the decision alone.
pub enum CleanPlan {
    Invoke(CleanStage),
    Done(Result<(), OperationErrorView>),
}

/// The operation that an invocation of an install belongs to.
pub open spec fn setup_operation(ports: Seq<PortSpec>, stage: SetupStage) -> Operation {
    match stage {
        SetupStage::CreateChain => Operation::CreateChain,
        SetupStage::JumpRule => Operation::AddJumpRule,
        SetupStage::PortRule(index) => Operation::AddPortRule(ports[index as int]),
    }
}

/// The clauses of an invocation of an install.
pub open spec fn setup_clauses(
    ports: Seq<PortSpec>,
    stage: SetupStage,
    mark_supported: bool,
    connbytes_supported: bool,
) -> Seq<Clause> {
    match stage {
        SetupStage::CreateChain => create_chain_clauses(),
        SetupStage::JumpRule => add_jump_clauses(),
        SetupStage::PortRule(index) => port_rule_clauses(
            ports[index as int],
            mark_supported,
            connbytes_supported,
        ),
    }
}

/// The stage that follows a successful one, if any is left: the chain, then the
/// jump, then one rule for each port specification in the order given.
pub open spec fn setup_successor(ports: Seq<PortSpec>, stage: SetupStage) -> Option<SetupStage> {
    match stage {
        SetupStage::CreateChain => Some(SetupStage::JumpRule),
        SetupStage::JumpRule => if ports.len() > 0 {
            Some(SetupStage::PortRule(0))
        } else {
            None
        },
        SetupStage::PortRule(index) => if index + 1 < ports.len() {
            Some(SetupStage::PortRule((index + 1) as usize))
        } else {
            None
        },
    }
}

/// How an install goes on after the outcome of an invocation. Any failure ends
/// it, under the name of the operation that failed; what was installed before
/// stays. A success leads to the next stage, or ends the install where none is
/// left.
pub open spec fn setup_after(
    ports: Seq<PortSpec>,
    stage: SetupStage,
    outcome: Result<(), BindingErrorView>,
) -> SetupPlan {
    match outcome {
        Err(cause) => SetupPlan::Done(
            Err(OperationErrorView { operation: setup_operation(ports, stage), cause }),
        ),
        Ok(()) => match setup_successor(ports, stage) {
            Some(next) => SetupPlan::Invoke(next),
            None => SetupPlan::Done(Ok(())),
        },
    }
}

/// The operation that an invocation of a removal belongs to.
pub open spec fn clean_operation(stage: CleanStage) -> Operation {
    match stage {
        CleanStage::DeleteJump => Operation::RemoveJumpRule,
        CleanStage::FlushChain => Operation::FlushChain,
        CleanStage::DeleteChain => Operation::DeleteChain,
    }
}

/// The clauses of an invocation of a removal.
pub open spec fn clean_clauses(stage: CleanStage) -> Seq<Clause> {
    match stage {
        CleanStage::DeleteJump => delete_jump_clauses(),
        CleanStage::FlushChain => flush_chain_clauses(),
        CleanStage::DeleteChain => delete_chain_clauses(),
    }
}

/// How a removal goes on after the outcome of an invocation. That the rule tool
/// did not find what it was to remove counts as already removed: the removal
/// goes on after the jump, and is over with success after the chain. Where the
/// chain could not be emptied because it is not there, it is not deleted
/// either. Any other failure ends the removal, under the name of the operation
/// that failed.
pub open spec fn clean_after(stage: CleanStage, outcome: Result<(), BindingErrorView>) -> CleanPlan {
    match (stage, outcome) {
        (CleanStage::DeleteJump, Ok(())) => CleanPlan::Invoke(CleanStage::FlushChain),
        (CleanStage::DeleteJump, Err(BindingErrorView::NotFoundByThatName { .. })) => {
            CleanPlan::Invoke(CleanStage::FlushChain)
        },
        (CleanStage::FlushChain, Ok(())) => CleanPlan::Invoke(CleanStage::DeleteChain),
        (CleanStage::FlushChain, Err(BindingErrorView::NotFoundByThatName { .. })) => {
            CleanPlan::Done(Ok(()))
        },
        (CleanStage::DeleteChain, Ok(())) => CleanPlan::Done(Ok(())),
        (CleanStage::DeleteChain, Err(BindingErrorView::NotFoundByThatName { .. })) => {
            CleanPlan::Done(Ok(()))
        },
        (_, Err(cause)) => CleanPlan::Done(
            Err(OperationErrorView { operation: clean_operation(stage), cause }),
        ),
    }
}

impl Setup {
    #[verifier::type_invariant]
    spec fn stage_in_range(self) -> bool {
        self.stage matches SetupStage::PortRule(index) ==> index < self.ports.len()
    }

    /// The port specifications that the install was asked for.
    pub closed spec fn ports(&self) -> Seq<PortSpec> {
        self.ports@
    }

    /// The invocation whose outcome is awaited.
    pub closed spec fn awaited(&self) -> SetupStage {
        self.stage
    }

    /// The invocation whose outcome is awaited.
    pub fn stage(&self) -> (stage: SetupStage)
        ensures
            stage == self.awaited(),
    {
        self.stage
    }
}

impl<B> SetupStep<B> {
    /// The decision that the step holds.
    pub open spec fn plan(self) -> SetupPlan {
        match self {
            SetupStep::Invoke(state, _) => SetupPlan::Invoke(state.awaited()),
            SetupStep::Done(outcome) => SetupPlan::Done(operation_view(outcome)),
        }
    }
}

impl<B> CleanStep<B> {
    /// The decision that the step holds.
    pub open spec fn plan(self) -> CleanPlan {
        match self {
            CleanStep::Invoke(stage, _) => CleanPlan::Invoke(stage),
            CleanStep::Done(outcome) => CleanPlan::Done(operation_view(outcome)),
        }
    }
}

/// A firewall whose rule set is installed and removed step by step. The trait
/// fixes the shape of the exchange with the caller; what is decided at each
/// step is stated by the provider that implements it.
pub trait FirewallProvider {
    type Binding: IptablesBinding;

    /// Begins an install for `ports_spec`.
    fn setup_rules(&self, ports_spec: Vec<PortSpec>) -> SetupStep<Self::Binding>;

    /// Goes on with an install after the invocation that `state` awaited came
    /// to `outcome`.
    fn setup_next(&self, state: Setup, outcome: Result<(), BindingError>) -> SetupStep<
        Self::Binding,
    >;

    /// Begins a removal.
    fn clean_rules(&self) -> CleanStep<Self::Binding>;

    /// Goes on with a removal after the invocation of `stage` came to
    /// `outcome`.
    fn clean_next(&self, stage: CleanStage, outcome: Result<(), BindingError>) -> CleanStep<
        Self::Binding,
    >;
}

impl<F: IptablesBindingFactory> Iptables<F> {
    /// The arguments of an invocation of an install.
    pub open spec fn setup_args(&self, ports: Seq<PortSpec>, stage: SetupStage) -> Seq<Seq<char>> {
        render(setup_clauses(ports, stage, self.mark_supported(), self.connbytes_supported()))
    }

    /// The command line for `stage` of an install of `ports`.
    fn setup_command(&self, ports: &Vec<PortSpec>, stage: SetupStage) -> (binding: F::Binding)
        requires
            stage matches SetupStage::PortRule(index) ==> index < ports.len(),
        ensures
            binding.program() == self.file(),
            binding.args() == self.setup_args(ports@, stage),
    {
        match stage {
            SetupStage::CreateChain => self.create_chain(),
            SetupStage::JumpRule => self.add_jump_rule(),
            SetupStage::PortRule(index) => self.add_port_rule(&ports[index]),
        }
    }

    /// The command line for `stage` of a removal.
    fn clean_command(&self, stage: CleanStage) -> (binding: F::Binding)
        ensures
            binding.program() == self.file(),
            binding.args() == render(clean_clauses(stage)),
    {
        match stage {
            CleanStage::DeleteJump => self.delete_jump_rule(),
            CleanStage::FlushChain => self.flush_chain(),
            CleanStage::DeleteChain => self.delete_chain(),
        }
    }
}

impl<F: IptablesBindingFactory> FirewallProvider for Iptables<F> {
    type Binding = F::Binding;

    /// Begins an install for `ports_spec`: the first invocation creates the
    /// dedicated chain.
    fn setup_rules(&self, ports_spec: Vec<PortSpec>) -> (step: SetupStep<F::Binding>)
        ensures
            step.plan() == SetupPlan::Invoke(SetupStage::CreateChain),
            step matches SetupStep::Invoke(state, binding) && state.ports() == ports_spec@
                && binding.program() == self.file() && binding.args() == self.setup_args(
                ports_spec@,
                SetupStage::CreateChain,
            ),
    {
        let binding = self.setup_command(&ports_spec, SetupStage::CreateChain);
        SetupStep::Invoke(Setup { ports: ports_spec, stage: SetupStage::CreateChain }, binding)
    }

    /// Goes on with an install after the invocation that `state` awaited came
    /// to `outcome`.
    fn setup_next(&self, state: Setup, outcome: Result<(), BindingError>) -> (step: SetupStep<
        F::Binding,
    >)
        ensures
            step.plan() == setup_after(state.ports(), state.awaited(), outcome_view(outcome)),
            step matches SetupStep::Invoke(next, binding) ==> next.ports() == state.ports()
                && binding.program() == self.file() && binding.args() == self.setup_args(
                state.ports(),
                next.awaited(),
            ),
    {
        proof {
            use_type_invariant(&state);
        }
        let Setup { ports, stage } = state;
        match outcome {
            Err(cause) => {
                let operation = match stage {
                    SetupStage::CreateChain => Operation::CreateChain,
                    SetupStage::JumpRule => Operation::AddJumpRule,
                    SetupStage::PortRule(index) => Operation::AddPortRule(ports[index]),
                };
                SetupStep::Done(Err(OperationError { operation, cause }))
            },
            Ok(()) => {
                let successor = match stage {
                    SetupStage::CreateChain => Some(SetupStage::JumpRule),
                    SetupStage::JumpRule => if ports.len() > 0 {
                        Some(SetupStage::PortRule(0))
                    } else {
                        None
                    },
                    SetupStage::PortRule(index) => if index + 1 < ports.len() {
                        Some(SetupStage::PortRule(index + 1))
                    } else {
                        None
                    },
                };
                match successor {
                    Some(next) => {
                        let binding = self.setup_command(&ports, next);
                        SetupStep::Invoke(Setup { ports, stage: next }, binding)
                    },
                    None => SetupStep::Done(Ok(())),
                }
            },
        }
    }

    /// Begins a removal: the first invocation deletes the jump to the
    /// dedicated chain.
    fn clean_rules(&self) -> (step: CleanStep<F::Binding>)
        ensures
            step.plan() == CleanPlan::Invoke(CleanStage::DeleteJump),
            step matches CleanStep::Invoke(_, binding) && binding.program() == self.file()
                && binding.args() == render(clean_clauses(CleanStage::DeleteJump)),
    {
        CleanStep::Invoke(CleanStage::DeleteJump, self.clean_command(CleanStage::DeleteJump))
    }

    /// Goes on with a removal after the invocation of `stage` came to
    /// `outcome`.
    fn clean_next(&self, stage: CleanStage, outcome: Result<(), BindingError>) -> (step: CleanStep<
        F::Binding,
    >)
        ensures
            step.plan() == clean_after(stage, outcome_view(outcome)),
            step matches CleanStep::Invoke(next, binding) ==> binding.program() == self.file()
                && binding.args() == render(clean_clauses(next)),
    {
        let found_nothing = match &outcome {
            Err(BindingError::NotFoundByThatName { .. }) => true,
            _ => false,
        };
        let succeeded = outcome.is_ok();
        match stage {
            CleanStage::DeleteJump => {
                if succeeded || found_nothing {
                    return CleanStep::Invoke(
                        CleanStage::FlushChain,
                        self.clean_command(CleanStage::FlushChain),
                    );
                }
            },
            CleanStage::FlushChain => {
                if succeeded {
                    return CleanStep::Invoke(
                        CleanStage::DeleteChain,
                        self.clean_command(CleanStage::DeleteChain),
                    );
                }
                if found_nothing {
                    return CleanStep::Done(Ok(()));
                }
            },
            CleanStage::DeleteChain => {
                if succeeded || found_nothing {
                    return CleanStep::Done(Ok(()));
                }
            },
        }
        let operation = match stage {
            CleanStage::DeleteJump => Operation::RemoveJumpRule,
            CleanStage::FlushChain => Operation::FlushChain,
            CleanStage::DeleteChain => Operation::DeleteChain,
        };
        match outcome {
            Err(cause) => CleanStep::Done(Err(OperationError { operation, cause })),
            Ok(()) => CleanStep::Done(Ok(())),
        }
    }
}

} // verus!
