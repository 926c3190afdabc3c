//! Crash artifacts: recording a crash as a structured event, pairing the
//! report and snapshot files that belong to one crash, and summarising a
//! binary snapshot section by section.

pub mod analysis;
pub mod catalog;
pub mod event;
pub mod naming;
pub mod report;
pub mod snapshot;
pub mod summary;
pub mod text;
