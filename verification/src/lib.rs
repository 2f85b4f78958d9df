//! A declarative container-provisioning library.
//!
//! A build manifest describes a desired container instance: its base image,
//! an optional entrypoint script, content to copy in, shared bind mounts,
//! commands to run inside it, and resource limits.  The library parses such
//! a manifest, translates lifecycle options into the container runtime's
//! command lines, and drives an ordered, fail-fast provisioning state
//! machine whose external actions (process spawns, file writes) are carried
//! out by the caller.

pub mod args;
pub mod laws;
pub mod manage;
pub mod manifest;
pub mod orchestrator;
pub mod resolver;
pub mod strutil;
