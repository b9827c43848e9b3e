//! Coordination of desktop-process shutdown and companion CLI provisioning.
//!
//! The heart of the crate is a single-flight gate and the close-event
//! coordinator built on it: every native close signal suppresses the default
//! close, at most one shutdown evaluation is in flight at a time, and the
//! gate is released on every outcome that leaves the process alive.  Around
//! it stand the pure parts of the CLI installer: resolving the application
//! bundle directory from the executable path, planning the symlink
//! installation, and reporting install status.  All file-system and
//! windowing work stays with the host; this crate only decides.

pub mod bundle;
pub mod coordinator;
pub mod gate;
pub mod installer;
