//! A small control plane that boots named virtual machines and serves each guest
//! the boot configuration it asks for.
//!
//! The crate holds the decisions: the instance registry, the port range, the
//! texts that the HTTP endpoints answer with, the hypervisor command line and
//! the life cycle of a launch. Sockets, files and child processes belong to the
//! program that embeds it.

pub mod text;
pub mod command;
pub mod ports;
pub mod registry;
pub mod service;
pub mod lifecycle;
