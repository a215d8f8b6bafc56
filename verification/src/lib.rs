//! Control plane for a traffic-shaping stack: firewall rules that send selected
//! traffic to a userspace queue, and supervision of the daemon that drains it.
//!
//! The library never spawns a process. It builds the command lines, classifies
//! what a finished process reported, and decides what a multi-step operation
//! does next; the embedding program executes the commands in between.

pub mod error;
pub mod iptables;
pub mod nfqws;
pub mod process;
pub mod text;
