//! Panic-safe foreign-call boundary for a labeled tensor storage library.
//!
//! Every exported operation of the storage library returns a status code
//! instead of letting an internal fault cross the language boundary. This
//! crate holds the verified core of that boundary: the status-code protocol,
//! the translation step of the fault-catching call wrapper, the per-thread
//! diagnostic message store, the configuration of the secondary diagnostic
//! channel, and the lifecycle of the opaque handles (label sets, data blocks,
//! tensor maps) that callers own across the boundary.

pub mod boundary;
pub mod diagnostics;
pub mod handles;
pub mod hook;
pub mod status;
pub mod version;
pub mod wrapper;

pub use boundary::Boundary;
pub use diagnostics::DiagnosticStore;
pub use hook::HookConfig;
pub use status::Error;
pub use status::EQS_BUFFER_SIZE_ERROR;
pub use status::EQS_INTERNAL_ERROR;
pub use status::EQS_INVALID_PARAMETER_ERROR;
pub use status::EQS_SUCCESS;
pub use wrapper::CallOutcome;
