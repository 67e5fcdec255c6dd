//! Decision logic for an automation job that advances dependency-update
//! pull requests: it classifies each open bot-authored PR, then plans at
//! most one merge and one rebase request per repository per run.
//!
//! The library is pure: it parses version strings out of PR titles,
//! derives a normalized record for each PR from raw remote data, and
//! picks the next action. All network traffic stays with the caller.

pub mod classify;
pub mod model;
pub mod plan;
pub mod text;
pub mod version;
