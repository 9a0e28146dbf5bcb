//! Automated course-section enrollment, verified.
//!
//! The crate holds the decision logic of an enrollment bot for an online
//! registration platform: which section of a course to pick from a snapshot
//! of availability (`selector`), how a per-course polling task moves between
//! its states (`task`), and when a whole enrollment cycle must be restarted
//! after an authentication failure (`orchestrator`). The network and console
//! plumbing around these decisions is ordinary unverified code that feeds
//! plain values in and carries actions out.

pub mod api;
pub mod concat;
pub mod orchestrator;
pub mod selector;
pub mod task;
pub mod text;
