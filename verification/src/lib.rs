//! Verified core of a cross-compilation build orchestrator for Android NDK
//! projects.
//!
//! The pipeline has four stages: locating an NDK installation on the host
//! (`locator`), resolving the set of targets and the API level to build for
//! (`resolver`), driving the per-target build loop with an abort-on-failure
//! policy (`orchestrator`), and planning the collection of built shared
//! libraries into a deployment directory tree (`collector`).
//!
//! Every stage is a pure function of plain values: the host environment is
//! handed in as a snapshot, build results are handed in as exit codes, and
//! filesystem effects are handed out as an explicit action plan. The thin
//! binary around this library performs the probing, the process invocations
//! and the filesystem writes.

pub mod collector;
pub mod error;
pub mod locator;
pub mod orchestrator;
pub mod pipeline;
pub mod resolver;
pub mod target;
pub mod text;
