//! Portable concurrency primitives: channels (multi-producer/single-consumer
//! and single-shot), task spawning with join handles, a cooperative yield, and
//! a monotonic point-in-time abstraction, all decoupled from the backend that
//! executes them. Each public type is a thin facade over a private adapter
//! that holds the backend's native primitive; the facade adds nothing beyond a
//! stable name, an error taxonomy, and the contracts stated here.

pub mod mpsc;
pub mod oneshot;
pub mod task;
pub mod time;
