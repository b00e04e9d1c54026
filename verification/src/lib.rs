//! Core logic of a command-line client for a mod-hosting registry: the
//! game-version model with its partial ordering and compatibility algebra,
//! version descriptors, pack manifests with pinned mod entries, the
//! dependency resolver, the update reconciler, and download integrity
//! checking.
//!
//! Network transport, terminal interaction and on-disk persistence are
//! external collaborators; they live outside this crate and exchange plain
//! values with it.

pub mod api;
pub mod config;
pub mod digest;
pub mod error;
pub mod mc_info;
pub mod pack;
pub mod resolver;
pub mod store;
pub mod text;
pub mod update;
