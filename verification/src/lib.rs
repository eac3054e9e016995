//! A minimal test-support library for launching external processes with a
//! controlled set of environment variables and asserting their successful
//! completion.
//!
//! The [`Executor`] holds an ordered list of environment bindings. Preparing a
//! launch splits a token list into a command and its arguments and attaches a
//! copy of the bindings; evaluating a completed run either passes a successful
//! exit through silently or produces a colored diagnostic (command line, exit
//! status, captured stdout and stderr).
//!
//! The actual process spawn is operating-system work and lives outside this
//! library; callers hand the prepared invocation to their spawn facility and
//! hand the captured outcome back for evaluation.

pub mod diagnostic;
pub mod executor;
pub mod launch;
pub mod text;

pub use executor::Executor;
pub use launch::CompletionResult;
pub use launch::Invocation;
pub use launch::LaunchError;
pub use launch::evaluate;
