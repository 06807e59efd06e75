//! The detectors, one module each.

pub mod anti_debug;
pub mod anti_injection;
pub mod integrity;
