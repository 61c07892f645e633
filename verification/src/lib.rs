//! Verified core logic of the Oxidized Minecraft server: configuration
//! parsing and validation, chat validation, block interaction rules,
//! weather and time progression, operator storage and per-connection
//! protocol decisions.

pub mod chat;
pub mod text;
pub mod properties;
pub mod sorting;
pub mod config;
pub mod blocks;
pub mod mining;
pub mod placement;
pub mod movement;
pub mod tick;
pub mod ops;
pub mod connection;
pub mod session;
pub mod cli;
pub mod roundtrip;
pub mod config_roundtrip;
