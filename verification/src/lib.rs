//! Network diagnosis logic: target parsing, per-layer module results,
//! calendar arithmetic, and the recommended-actions rule set.
pub mod diagnostics;
