//! A sandboxed file system behind a line-delimited request and response
//! protocol.
//!
//! The library decides and the caller acts. The [`server`] reads one message
//! at a time and routes it; the [`handler`] takes the calls of tools; the
//! mode gate in [`task_state`] says which operations may be called at the
//! moment; the sandbox in [`fs_service`] says which paths may be touched; the
//! policy in [`retry`] says whether failed work is tried again. No function
//! here reads or writes a file: what the file system holds is handed in, and
//! what is to be done with it is handed out.

pub mod arguments;
pub mod cli;
pub mod error;
pub mod fs_service;
pub mod handler;
pub mod json;
pub mod mcp_types;
pub mod recovery;
pub mod retry;
pub mod server;
pub mod strings;
pub mod task_state;
pub mod tools;

pub use cli::CommandArguments;
pub use fs_service::FileSystemService;
pub use handler::MyServerHandler;
pub use task_state::{
    add_workflow_step, complete_current_mode, get_available_operation_modes, get_current_mode,
    get_operation_mode_tools, start_operation_mode,
};
