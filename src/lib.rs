//! A structured error chain: an original failure, the context notes added to
//! it while it travels up through the callers, and the place where each link
//! was made, rendered as a one-line summary or as a full indexed trace.

pub mod chain;
pub mod convert;
pub mod example;
pub mod laws;
pub mod location;
pub mod render;
pub mod text;

pub use chain::{Error, ErrorCode, Failure, IoFailure};
pub use convert::{context, context_foreign, wrap};
pub use example::{chain1, define_error, with_chain, with_context};
pub use location::Location;
