//! Minimal processor descriptor infrastructure for an x86_64 kernel.
//!
//! The crate builds the per-core control block (task state segment) that
//! names an emergency fault-handling stack, encodes the two-entry descriptor
//! table (kernel code segment plus control-block reference) together with the
//! selectors that name its entries, and models the activation sequence that
//! loads both into CPU registers, so that a double fault — even one caused by
//! stack exhaustion — is dispatched on a known-good stack.

pub mod activation;
pub mod control_block;
pub mod descriptor;
pub mod stack;
pub mod table;
