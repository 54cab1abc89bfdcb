//! The bookkeeping of the executor: tasks and their states, the record of woken
//! tasks, the order in which tasks are polled, and the table of I/O sources.
//!
//! Polling futures and waiting for I/O belong to the caller; the functions here
//! keep the state between those steps.
pub mod io;
pub mod reactor;
pub mod schedule;
pub mod task;
pub mod waker;

pub use task::{Task, TaskId, TaskPoll, TaskState};
pub use waker::{SshBindWaker, WakeRegistry};
