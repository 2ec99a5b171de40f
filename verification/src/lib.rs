//! Core logic of rgl, a compiler for Minecraft Bedrock add-on projects:
//! where a project keeps its caches and build output, how export targets
//! resolve and guard against collisions, which files rgl may delete, and how
//! filters are turned into commands. Everything that touches the file system,
//! the environment or other processes lives in the `app/` crate around this
//! library, which hands plain values in and carries out what comes back.

pub mod path;
pub mod digest;
pub mod paths;
pub mod temp;
pub mod user_config;
pub mod text;
pub mod export;
pub mod file_protection;
pub mod subprocess;
pub mod filter;
pub mod profile;
pub mod runner;
pub mod clean;
pub mod eval;
