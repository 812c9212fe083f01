//! A lock-guarded value that both sides mutate, with wake-ups and per-side liveness.

pub mod ended;
pub mod laws;
pub mod shared;
pub mod state;
pub mod waiter;

pub use shared::{Guard, Mut, Receiver, Ref, Sender};
pub use state::{Cleanup, NoCleanup, OnUnused, Poll};
pub use waiter::{Waiter, WaiterList};
