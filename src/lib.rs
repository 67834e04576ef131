//! Renders math markup to HTML through a JavaScript library hosted in an
//! embedded engine. This crate holds the bridge's decisions, verified: which
//! guest operation comes next, how host options become the guest's options
//! object, and which error answers each outcome. The host runs the engine.

pub mod error;
pub mod guest;
pub mod options;
pub mod session;

pub use error::Error;
pub use options::Opts;
