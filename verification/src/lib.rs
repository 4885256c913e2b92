//! Supervisor for a single sidecar server process.
//!
//! The library is the decision core of a process supervisor: it owns the
//! bookkeeping for one child process (running flag, process id, last error),
//! the state machine that the background monitor loop drives, and the
//! classification of the HTTP replies used for health checks and prompt
//! forwarding.  All process and network I/O is performed by the host, which
//! feeds the outcomes back into these verified transition functions.

pub mod digits;
pub mod http;
pub mod json;
pub mod manager;

pub use manager::SidecarManager;
