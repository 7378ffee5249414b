//! A project-hygiene linter library: an event-driven rule engine for agent
//! hooks, event mappers for several agent sources, profile activation, an
//! append-only hook log, and a family of text-based lint rule sets.

pub mod config;
pub mod dependencies;
pub mod detection;
pub mod engine;
pub mod errors;
pub mod events;
pub mod file_naming;
pub mod fsprobe;
pub mod git;
pub mod logger;
pub mod mappers;
pub mod json;
pub mod markdown_frontmatter;
pub mod numbers;
pub mod package_organization;
pub mod patterns;
pub mod pnpm_lockfile;
pub mod profiles;
pub mod security;
pub mod text;
pub mod typescript;
pub mod validation;
