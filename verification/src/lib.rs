//! Crash-handler core: classifies structured-exception codes, models bounded
//! call-stack capture, and renders a numbered, human-readable backtrace
//! report, together with the one-time installation guard.
pub mod capture;
pub mod fault;
pub mod install;
pub mod render;
pub mod symbol;

pub use fault::classify_fault;
pub use fault::fault_response;
