//! A dual-runtime task executor: computations are polled on a fixed-size
//! compute-worker pool while I/O registration happens under a shared reactor.
//!
//! The scheduling protocol of a task cell and the single-value result channel
//! are explicit state machines whose laws are proved here.

pub mod cell;
pub mod channel;
pub mod executor;
pub mod task;

pub use cell::{Action, CellModel, Event, Phase, TaskCell};
pub use channel::{ChanOp, ChannelModel, Recv, ResultChannel};
pub use executor::{AsyncExecutor, ExecutorError, WORKER_THREADS};
pub use task::{Task, TaskModel};
