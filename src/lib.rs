//! Shutdown coordination for a command-line process that runs one operation
//! while staying interruptible by a termination signal.
pub mod coordinator;
pub mod flag;
pub mod operation;
pub mod watcher;

pub use coordinator::{Action, Coordinator, Phase, RaceEvent, Start, ABANDON_NOTICE};
pub use flag::TerminationFlag;
pub use operation::{Cli, OperationError, SelectionError, Vacant};
pub use watcher::{WatchStep, Watcher};
