//! Rewrites resume sections through a chat completion endpoint: the prompt for
//! each kind of section, the call that goes out, the handling of what comes
//! back, and short notes on what the rewrite changed.

pub mod improvements;
pub mod prompt;
pub mod service;
pub mod text;
