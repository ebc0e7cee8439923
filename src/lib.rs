//! Evaluates a Rust expression by building and running it inside a
//! throwaway Cargo project, the sandbox.
//!
//! The library holds the verified decisions of that round trip: where the
//! sandbox lives, how its manifest is kept out of any enclosing workspace,
//! the program that wraps an expression, and the order of the steps of
//! each operation together with the error that ends it. Carrying out a
//! step (touching the disk, spawning Cargo) is left to the caller, which
//! reports back how the step went.

pub mod evaluation;
pub mod installation;
pub mod layout;
pub mod manifest;
pub mod program;
pub mod provisioning;
pub mod sandbox;
pub mod step;

pub use sandbox::Sandbox;
pub use step::{Action, Event, SandboxError};
