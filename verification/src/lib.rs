//! A small library of verified demonstration routines together with an
//! example runner: an ordered registry of named demos whose observable
//! output is computed as plain values and handed to the caller.

pub mod examples;
pub mod runner;
