//! Supervision of one long-running worker process beside a host application:
//! the exclusively owned worker handle, the shutdown listener that kills the
//! worker once, and the relay that turns the worker's output into log lines.

pub mod handle;
pub mod lifecycle;
pub mod logline;
pub mod relay;
pub mod startup;
