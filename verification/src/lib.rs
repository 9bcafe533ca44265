//! Process-supervision core for a desktop host that runs a single long-lived
//! worker process.
//!
//! The library owns the lifecycle decisions for the worker: when a start is
//! permitted, how the launch command is assembled, how spawn and termination
//! outcomes change the supervisor's state, and how discrete UI events (menu
//! selection, tray click) translate into supervisor and window actions. The
//! host binary performs the OS calls themselves (spawn, kill, wait) and feeds
//! their outcomes back in as plain values.

pub mod errors;
pub mod launch;
pub mod supervisor;
pub mod dispatcher;
