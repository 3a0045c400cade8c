//! Runtime context for nodes of a workflow graph: identities, configuration,
//! an optional binding to one node invocation, and the admission-controlled
//! service handles through which a node asks for tokens, signatures and
//! transaction execution.

pub mod config;
pub mod context;
pub mod extensions;
pub mod text;
pub mod utils;
