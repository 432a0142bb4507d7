//! The verified core of safe bindings for LLDB 19: the handle types of LLDB's SB API and the
//! decisions about what LLDB returns (null handles, failure reports, C strings, its
//! enumerations), and the search for an LLDB installation to build against.
use vstd::prelude::*;

pub mod ctext;
pub mod discovery;
pub mod error;
pub mod handles;
pub mod layout;
pub mod registry;
pub mod state;
pub mod text;
pub mod version;
pub mod wide;

pub use discovery::{CommandOutput, Discovery, DiscoveryStep, Request};
pub use error::Error;
pub use handles::{
    Breakpoint, Broadcaster, Debugger, Event, Frame, Listener, Process, Target, Thread, Value,
};
pub use layout::{HostOs, LldbConfig, LocalPath, PrefixProbe, PrefixQuery, PrefixStep};
pub use registry::parse_reg_value;
pub use state::{State, StopReason};
pub use version::version_from_output;
pub use wide::dll_directory_wide;

verus! {

} // verus!
