//! A fixed-size worker pool, reduced to the decisions it makes.
//!
//! The shared job queue, each worker's step on what it dequeues, and the pool's
//! lifecycle with its ordered shutdown are verified here. Threads, the lock
//! round the queue and the running of jobs are left to the embedding code.

pub mod pool;
pub mod queue;
pub mod worker;

pub use pool::{PoolControl, PoolCreationError, PoolState};
pub use queue::{Dequeued, JobQueue};
pub use worker::{Worker, WorkerAction, WorkerPhase};
