//! Further controllers for the harness.

pub mod basic;
