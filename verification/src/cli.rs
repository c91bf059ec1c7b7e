//! The command tree: the concrete commands the executable exposes.
//!
//! The tree is two levels of composites and selectors deep: the root holds
//! a selector over the resource areas, each area holds a selector over its
//! operations, and the operations are leaves.  Every node implements the
//! executable-unit capability set, so one dispatch walk serves them all.

pub mod content;
pub mod extractor;
pub mod graph;
pub mod index;
pub mod namespace;
pub mod root;
