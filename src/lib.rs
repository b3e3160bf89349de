//! A countdown timer with named presets, and a single-record store.

pub mod storage;
pub mod timer;
