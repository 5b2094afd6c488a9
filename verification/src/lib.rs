//! A small command dispatcher for a personal container workflow.
//!
//! The library holds the verified core of a tool that wraps a container
//! engine's command line: it decides which engine invocations to issue for
//! each subcommand (`new`, `work`, `list`, `destroy`), in which order, with
//! which argument vectors, and how the outcome of each invocation maps to
//! the process exit code. Spawning the engine, prompting on a terminal and
//! argument parsing are left to an unverified driver, which obtains every
//! decision from [`session::Session`].

pub mod session;
pub mod step;
pub mod text;
