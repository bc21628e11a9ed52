//! A node runtime: a container that wires long-running tasks to the shared
//! resources they need, tracks their lifecycle, and coordinates an orderly
//! shutdown.

pub mod cursor;
pub mod error;
pub mod log_query;
pub mod node;
pub mod poll;
pub mod report;
pub mod resource;
pub mod running;
pub mod signal;
pub mod task;
