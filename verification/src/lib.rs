//! A minimal scripting host library: the decision logic of a host that runs
//! one script inside an embedded engine, exposes a logging and a
//! delay-scheduling capability to it, and inspects the settlement state of
//! the promise the script produces.
//!
//! The library holds everything the host decides or formats: the engine
//! lifecycle state machine, the global-scope binding table, the host-function
//! bridge (what each capability call emits and does), and the run pipeline
//! that turns engine outcomes into either the final report lines or a fatal
//! error. The embedding itself (isolates, contexts, the engine's calls) is
//! driven by a thin program around the library.

pub mod bridge;
pub mod errors;
pub mod inspect;
pub mod laws;
pub mod lifecycle;
pub mod run;
pub mod scope;
pub mod text;

pub use errors::RunError;
