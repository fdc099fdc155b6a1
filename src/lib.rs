//! Native-side dispatch for a desktop launcher: classifies "open this thing"
//! requests, plans the process to run on each host family, reads back what the
//! process reported, and steps the host window through in-app navigation.
//!
//! Every operation that touches the operating system or the window is left to
//! the caller: this crate decides what to do and what to answer.

pub mod text;
pub mod process;
pub mod navigation;
pub mod dispatch;
pub mod host;

pub use text::{joined, same_text, strip_quotes, double_single_quotes};
pub use process::{
    Platform, Invocation, ProcessOutcome, launch_invocation, open_invocation, command_invocation,
    launch_result, open_result, command_result,
};
pub use navigation::{
    NavigationTarget, NavStage, WindowReport, WindowStep, Navigation, unknown_function_reply,
};
pub use dispatch::{QuickSearchResult, Dispatch};
pub use host::{devtools_access, system_info};
