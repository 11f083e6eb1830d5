//! Local telemetry recorder: timestamps, record rows, range queries and the
//! recording state machine, with their contracts.

pub mod collation;
pub mod timestamp;
pub mod range_input;
pub mod record;
pub mod query;
pub mod engine;
pub mod sampling;
pub mod control;
