//! Where function timings go: a configuration store for the output
//! destination and a dispatcher that turns each measurement into the
//! single sink action that the destination calls for.

pub mod output;
pub mod row;
pub mod store;
pub mod laws;
pub mod level;

pub use output::{read_output, Output, OutputView, TIMED_OUTPUT_ENV};
