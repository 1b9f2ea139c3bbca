//! Task progress bookkeeping for the aqueduct task runtime.

pub mod progress;
pub mod task;
pub mod codegen;
