//! Decision logic of a toolchain bootstrapper: which tools to provision and
//! how, where their archives and install directories live, how the search
//! path changes, and which CMake invocations configure and build a project.
//!
//! Every function here works on plain values; performing the probes,
//! downloads, extractions and subprocess calls is left to the caller.

pub mod text;
pub mod error;
pub mod cmake;
pub mod registry;
pub mod archive;
pub mod download;
pub mod search_path;
pub mod provision;
pub mod pipeline;
