//! Progress tracking and split decisions for an observed game process.
//!
//! The library is the verified core of an autosplitter: a signature scanner
//! that locates a drifting counter address inside a process's memory, a
//! tracker that turns periodic counter samples into a validated progress
//! model (stage, pad count, difficulty, validity), and a rule engine that
//! decides when a configured split condition fires. All process I/O stays
//! with the host: the host reads bytes and hands plain values in; every
//! decision made from those values is verified here.

pub mod data;
pub mod sigscan;
pub mod split_state;
pub mod split_type;
