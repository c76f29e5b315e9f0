//! Orchestration of functions-as-processes: identifiers, storage, and the
//! Docker, Rust-function, system-command and QEMU providers.
//!
//! The crate holds the decisions. Reading files, spawning processes and
//! talking to sockets is left to the caller, who performs the actions that the
//! step functions hand out and reports back what happened.
pub mod bignat;
pub mod docker;
pub mod engine;
pub mod fx_id;
pub mod io_error;
pub mod number;
pub mod path;
pub mod qemu;
pub mod rust_fn;
pub mod system_command;
pub mod text;
pub mod utils;
