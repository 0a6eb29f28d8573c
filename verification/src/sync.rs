//! Wallet sync: scan planning, the self-healing driver, and what it reports.

pub mod attempt;
pub mod chunk;
pub mod chunk_laws;
pub mod classify;
pub mod driver;
pub mod driver_laws;
pub mod driver_state;
pub mod frontier;
pub mod ladder;
pub mod ladder_laws;
pub mod options;
pub mod repair_laws;
pub mod report;
pub mod scan;
pub mod wakeup;
pub mod wakeup_laws;
