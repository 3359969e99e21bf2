//! Keeps the dependency update configuration of an organisation's
//! repositories in line with the ecosystems each one uses.

pub mod dependabot;
pub mod ecosystem;
pub mod github;
pub mod merge;
pub mod publish;
pub mod text;
pub mod detect;
