//! Lifecycle and resource enforcement for sandboxed script contexts.
//!
//! A context is either the privileged main worker or an unprivileged user
//! worker. The library decides how a context is put together, which steps a
//! run goes through, and when a runaway user worker is halted; the host
//! program owns the engine, the sockets and the threads, and carries out the
//! actions that the library hands it.

pub mod bootstrap;
pub mod capabilities;
pub mod config;
pub mod controller;
pub mod edge_runtime;
pub mod import_maps;
pub mod limits;
pub mod locations;
pub mod run;
pub mod system;
pub mod system_laws;
pub mod trace;
