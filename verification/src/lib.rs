//! Core of a desktop authoring tool for LaTeX documents: it validates and
//! creates projects, files and directories against a filesystem model,
//! tracks per-project metadata, and records change notifications for
//! observers. The unverified shell around this library performs the real
//! disk operations that the model prescribes.

pub mod app_state;
pub mod errors;
pub mod file_manager;
pub mod fs_model;
pub mod laws;
pub mod paths;
pub mod project_manager;
