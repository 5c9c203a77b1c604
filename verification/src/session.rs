//! Session detection: what a detected session is, what a detection backend is,
//! and how the results of two backends are merged.

pub mod merged;
pub mod source;
