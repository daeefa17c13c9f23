//! Decision logic for moving git branches between isolated virtual machines
//! as bundle files: branch-name handling, default-branch resolution, export
//! ranges, bundle discovery, and the import session with its conflict and
//! detour handling. Running git, prompting and touching the filesystem are
//! left to the caller, which hands the results back as plain values.

pub mod config;
pub mod discovery;
pub mod error;
pub mod export;
pub mod inspect;
pub mod model;
pub mod names;
pub mod session;
pub mod text;
