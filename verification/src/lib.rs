//! Length reconciliation for element-wise computations over two sample
//! sequences.
//!
//! Distance and similarity metrics that walk two sequences in lockstep first
//! truncate both inputs to their shared minimum length, silently dropping
//! trailing elements of the longer one. This crate states and verifies that
//! shared policy; the floating-point accumulation built on top of it lives
//! outside the verified core.

pub mod reconcile;
