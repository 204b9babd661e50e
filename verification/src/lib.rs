//! Control-protocol and data-pipeline core for a structured-light depth
//! camera: a catalog of fixed-format device commands, and a composable
//! processor abstraction for chaining frame-transform stages.

pub mod command;
pub mod processor;
