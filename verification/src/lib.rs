//! Verified core of a live heart-rate monitor fed by short-range wireless
//! broadcasts.
//!
//! The library covers the logic worth specifying: deciding which incoming
//! advertisement records are valid readings (`filter`), keeping the current
//! reading together with a bounded rolling history under a single-writer
//! discipline (`monitor`), classifying how fresh the last reading still is
//! (`freshness`), and the generation-counter rule behind blocking
//! wait-for-change consumers (`notify`). Scanning the radio and serving HTTP
//! are collaborators outside this crate; they exchange plain values with the
//! functions here.

pub mod config;
pub mod filter;
pub mod freshness;
pub mod history;
pub mod monitor;
pub mod notify;
