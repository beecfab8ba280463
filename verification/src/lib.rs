//! Verified core of a command-line updater for a desktop application.
//!
//! The updater fetches release metadata over HTTP, downloads the release
//! artifact with progress reporting, extracts it, backs up any previous
//! installation, installs the new version into a per-user directory, and
//! writes a desktop-launcher entry.  This crate holds the decisions and
//! computations of that pipeline — metadata decoding, progress accounting,
//! backup planning, path and text rendering — with contracts; the thin
//! shell that performs the network and filesystem work lives outside it.

pub mod desktop;
pub mod download;
pub mod errors;
pub mod install;
pub mod meta;
pub mod numfmt;
pub mod paths;

pub use errors::UpdateError;
pub use meta::Resp;
pub use paths::TmpDir;
