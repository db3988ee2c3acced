//! An in-memory task broker: a task-state machine, a last-in-first-out claim
//! protocol, an advisory payload-schema registry, and the worker-side handler
//! dispatch that turns a claimed task into a reported outcome.

pub mod external;
pub mod handler;
pub mod schema;
pub mod store;
pub mod table;
pub mod worker;
pub mod task;
