//! Verified host logic for a handheld game console's operating environment.
//!
//! The crate models the emulation-core host and its orchestration envelope:
//! the per-frame pixel conversion and scaling pipeline, the save-state
//! protocol with its run-loop pause handshake, the audio hand-off, the local
//! IPC protocol, and the system process's sleep/wake and input-gesture state
//! machines.  Process and device I/O live outside the library; every decision
//! and transformation in between is specified and proved here.

pub mod args;
pub mod audio;
pub mod frame;
pub mod games;
pub mod geometry;
pub mod gesture;
pub mod hal;
pub mod host;
pub mod input;
pub mod ipc;
pub mod lifecycle;
pub mod pixel;
pub mod raster;
pub mod save;
pub mod settings;
pub mod sleep;
pub mod text;
pub mod variables;
