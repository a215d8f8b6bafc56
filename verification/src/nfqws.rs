//! The queue processor: its command line, and the supervision of its process.

pub mod binding;
pub mod enums;
pub mod grammar;
pub mod laws;
pub mod supervisor;
pub mod traits;

pub use binding::{NfqwsCmd, NfqwsCmdFactory};
pub use enums::{FilterMode, Platform};
pub use supervisor::{BypassSoftware, Nfqws};
pub use traits::{Flag, NfqwsBinding, NfqwsBindingFactory};
