//! The rule tool: its command lines, and the lifecycle of the dedicated chain.

pub mod binding;
pub mod enums;
pub mod grammar;
pub mod laws;
pub mod lifecycle;
pub mod rules;
pub mod traits;

pub use binding::{IptablesCmd, IptablesCmdFactory};
pub use enums::{Port, PortSpec, Protocol};
pub use lifecycle::{
    CleanPlan, CleanStage, CleanStep, FirewallProvider, Setup, SetupPlan, SetupStage, SetupStep,
};
pub use rules::Iptables;
pub use traits::{Clause, IptablesBinding, IptablesBindingFactory};
