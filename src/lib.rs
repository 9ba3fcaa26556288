//! Builds the on-disk layout of a game server cluster (database role,
//! authentication instances and channel parts) from one topology description.
//!
//! The library decides everything: which working-directory entries are in the
//! way, which units the topology expands to, what every configuration file
//! says, and the exact sequence of filesystem operations that materialises
//! them. Performing those operations is left to the caller.
pub mod config;
pub mod error;
pub mod expand;
pub mod guard;
pub mod maker;
pub mod render;
pub mod text;
