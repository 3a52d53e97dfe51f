pub mod binary64;
pub mod dataflow;
pub mod grid;
pub mod layout;
pub mod outcome;
pub mod schedule;
pub mod scheduler;
pub mod stepper;
pub mod workpad;
