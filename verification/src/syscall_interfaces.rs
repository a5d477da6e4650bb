//! The feature interfaces that a call system is made of.

pub mod logging;
pub mod storage;
