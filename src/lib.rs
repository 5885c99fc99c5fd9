//! Control-plane agent for one supervised blockchain node: the supervisor's
//! state machine, the command protocol spoken to it, the handlers behind the
//! remote API and the mapping of internal failures to JSON-RPC errors.

mod outside;

pub mod api;
pub mod env;
pub mod error;
pub mod supervisor;
pub mod types;
