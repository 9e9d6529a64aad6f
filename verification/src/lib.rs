//! Workload driver for exercising span instrumentation: a small catalog of
//! synthetic files is written, read back under four execution strategies and
//! removed again. The library holds the catalog, the file contents and the
//! decisions of the driver; performing the actions it asks for (file system,
//! scopes, thread pools, tasks) is left to the caller.

pub mod catalog;
pub mod content;
pub mod driver;
pub mod history;
pub mod cleanup;
pub mod guarantees;
