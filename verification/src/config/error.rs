//! Configuration validation errors of the sectioned configuration.

use vstd::prelude::*;
use crate::text::{int_digits, push_str, write_int};

verus! {

/// Errors that can occur when validating server configuration.
#[derive(Debug, Clone)]
#[non_exhaustive]
pub enum ConfigError {
    /// Port number is out of valid range (1-65535).
    InvalidPort(u16),
    /// View distance is out of valid range (2-32).
    InvalidViewDistance(u32),
    /// Simulation distance is out of valid range (2-32).
    InvalidSimulationDistance(u32),
    /// Max players must be positive.
    InvalidMaxPlayers(u32),
    /// Color char must be a single non-alphanumeric ASCII character (or
    /// empty to disable).
    InvalidColorChar(String),
}

impl ConfigError {
    /// The message shown for this error.
    pub open spec fn spec_message(&self) -> Seq<char> {
        match self {
            ConfigError::InvalidPort(v) => "invalid port: "@ + int_digits(*v as int) + " (must be 1-65535)"@,
            ConfigError::InvalidViewDistance(v) => "invalid view distance: "@ + int_digits(*v as int)
                + " (must be 2-32)"@,
            ConfigError::InvalidSimulationDistance(v) => "invalid simulation distance: "@
                + int_digits(*v as int) + " (must be 2-32)"@,
            ConfigError::InvalidMaxPlayers(v) => "invalid max players: "@ + int_digits(*v as int)
                + " (must be 1+)"@,
            ConfigError::InvalidColorChar(s) => "invalid color_char: \""@ + s@
                + "\" (must be a single non-alphanumeric ASCII char or empty)"@,
        }
    }

    /// The message shown for this error (what `to_string` gives).
    pub fn message(&self) -> (r: String)
        ensures
            r@ == self.spec_message(),
    {
        let mut s = String::new();
        match self {
            ConfigError::InvalidPort(v) => {
                push_str(&mut s, "invalid port: ");
                write_int(&mut s, *v as i64);
                push_str(&mut s, " (must be 1-65535)");
            },
            ConfigError::InvalidViewDistance(v) => {
                push_str(&mut s, "invalid view distance: ");
                write_int(&mut s, *v as i64);
                push_str(&mut s, " (must be 2-32)");
            },
            ConfigError::InvalidSimulationDistance(v) => {
                push_str(&mut s, "invalid simulation distance: ");
                write_int(&mut s, *v as i64);
                push_str(&mut s, " (must be 2-32)");
            },
            ConfigError::InvalidMaxPlayers(v) => {
                push_str(&mut s, "invalid max players: ");
                write_int(&mut s, *v as i64);
                push_str(&mut s, " (must be 1+)");
            },
            ConfigError::InvalidColorChar(c) => {
                push_str(&mut s, "invalid color_char: \"");
                push_str(&mut s, c.as_str());
                push_str(&mut s, "\" (must be a single non-alphanumeric ASCII char or empty)");
            },
        }
        assert(s@ =~= self.spec_message());
        s
    }
}

} // verus!
