//! Process metrics aggregation, ranking and control engine.
//!
//! The library turns raw counter samples of running processes into usage
//! rates, orders and filters the resulting entries, builds a parent/child
//! tree view, and drives the operator-facing view modes together with the
//! validation of process-control requests. Everything that talks to the
//! operating system stays outside: callers hand in samples and provider
//! outcomes as plain values.

pub mod affinity;
pub mod cli;
pub mod control;
pub mod clock;
pub mod cpu;
pub mod details;
pub mod entry;
pub mod error;
pub mod input;
pub mod memory;
pub mod messages;
pub mod navigation;
pub mod netstat;
pub mod priority;
pub mod refresh;
pub mod sample;
pub mod sort;
pub mod state;
pub mod suspend;
pub mod text;
pub mod tree;
pub mod view_mode;
