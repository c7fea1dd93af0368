//! A one-way directory mirror: a watcher that decides when to run a pass, and
//! a reconciler that decides which files of the source to copy into the
//! destination. The filesystem and the change-notification service stay with
//! the caller; this library holds the decisions and what is proved of them.

pub mod model;
pub mod reconcile;
pub mod timestamp;
pub mod watcher;

pub use reconcile::{decide, finish_pass, plan_pass, Decision, DestProbe, EntryProbe, PassFailure};
pub use timestamp::Timestamp;
pub use watcher::{Command, DirWatcher, Event, Phase, StartupError, WakeResult};
