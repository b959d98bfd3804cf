//! A thread-local cooperative task executor that lives beside a message loop
//! it does not own: the host polls the executor once per iteration, and the
//! executor rouses the host when there is work.
//!
//! This crate holds the rules of the executor as plain data and operations
//! on it, each with its contract:
//!
//! - [`channel`]: the inbox of wake requests, drop requests and idle-waiters,
//!   and when a request wakes the host;
//! - [`wake`]: the wake object of a task, which folds repeated wakes into one
//!   request;
//! - [`task`]: the record of a task, and the handle that awaits or cancels it;
//! - [`idle`]: the wait for the runtime to become idle;
//! - [`runnable`], [`slab`], [`runner`]: what the scheduler polls, where it
//!   keeps it, and what one drain iteration does;
//! - [`runtime`], [`entry`]: the runtime of a thread, and how it is set up
//!   and torn down;
//! - [`host`]: the decisions of the host loops.
//!
//! An embedding supplies what is not a rule: the futures and their polls, the
//! locks round what threads share, the thread-local slots, and the sleep of
//! the host.

pub mod channel;
pub mod entry;
pub mod host;
pub mod idle;
pub mod runnable;
pub mod runner;
pub mod runtime;
pub mod slab;
pub mod task;
pub mod wake;
