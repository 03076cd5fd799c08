//! Times repeated runs of an external command.
//!
//! The crate holds the decisions of such a tool and none of its input or
//! output: which invocations are accepted, how a command line is handed to
//! the operating system, in which order a session waits, runs, reports and
//! lists processes, and which processes of a snapshot are listed. A driver
//! performs the actions and feeds back what happened.

pub mod invocation;
pub mod launch;
pub mod session;
pub mod trace;
pub mod watch;
