//! Decision logic for bootstrapping a patched LLVM and the SBPF linker.
//!
//! The library never touches the disk or starts a process. It lays out the
//! paths, builds the command lines and the generated cargo configuration, and
//! drives the whole bootstrap as a state machine: the caller performs each
//! [`machine::Action`] and reports what happened as an [`machine::Event`].

pub mod cache;
pub mod command;
pub mod config;
pub mod failure;
pub mod laws;
pub mod layout;
pub mod links;
pub mod machine;
pub mod model;
pub mod paths;
pub mod replies;
