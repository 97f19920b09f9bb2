//! The operation surface exposed to the dispatcher, one module per
//! resource kind. Each operation parses its textual inputs, binds a facade,
//! and returns a typed result; each has a relational postcondition shared
//! with the dispatcher.

pub mod sequence;
pub mod session;
pub mod topic;
