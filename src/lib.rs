//! Decision logic of a background presence worker: which external call each
//! queued command leads to, and how the connection slot changes with the
//! outcome of that call.

pub mod payload;
pub mod worker;
pub mod laws;
