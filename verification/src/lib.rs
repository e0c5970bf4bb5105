//! Verified core of the CI workflow generator: the decisions that shape the
//! generated GitHub Actions files (environment variables per platform, job
//! names and guards, artifact names and paths, workflow file names and
//! contents), checked against contracts over their mathematical models.

pub mod runners;
pub mod gh;
pub mod jobs;
pub mod vars;
pub mod workflows;
pub mod paths;
pub mod run_bundling;
