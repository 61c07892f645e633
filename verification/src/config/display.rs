//! Display, MOTD, and chat formatting configuration.

use vstd::prelude::*;
use crate::text::chars_of;

verus! {

/// Display and MOTD settings.
#[derive(Debug, Clone)]
pub struct DisplayConfig {
    /// Message of the day shown in the server list.
    pub motd: String,
    /// Respond to server-list pings (default `true`).
    pub is_status_enabled: bool,
    /// Hide player names from the server list (default `false`).
    pub is_hiding_online_players: bool,
    /// Entity tracking range as a percentage (default `100`).
    pub entity_broadcast_range_percentage: i32,
    /// Heartbeat interval in seconds for status polling (default `5`).
    pub status_heartbeat_interval: i32,
}

impl Default for DisplayConfig {
    fn default() -> (r: Self)
        ensures
            r.motd@ == "An Oxidized Minecraft Server"@,
            r.is_status_enabled,
            !r.is_hiding_online_players,
            r.entity_broadcast_range_percentage == 100,
            r.status_heartbeat_interval == 5,
    {
        DisplayConfig {
            motd: "An Oxidized Minecraft Server".to_owned(),
            is_status_enabled: true,
            is_hiding_online_players: false,
            entity_broadcast_range_percentage: 100,
            status_heartbeat_interval: 5,
        }
    }
}

/// Chat formatting settings.
#[derive(Debug, Clone)]
pub struct ChatConfig {
    /// Alternate color code prefix character (default `'&'`).
    ///
    /// Players and config strings (MOTD, etc.) can use this character
    /// instead of the standard `§` to apply color and formatting codes.
    /// Set to `""` to disable alternate color codes.
    pub color_char: String,
}

impl ChatConfig {
    /// Returns the configured color char (the first character of
    /// `color_char`), or `None` if disabled (empty string).
    pub fn color_char(&self) -> (r: Option<char>)
        ensures
            r == (if self.color_char@.len() > 0 {
                Some(self.color_char@[0])
            } else {
                None
            }),
    {
        let v = chars_of(self.color_char.as_str());
        if v.len() > 0 {
            Some(v[0])
        } else {
            None
        }
    }
}

impl Default for ChatConfig {
    fn default() -> (r: Self)
        ensures
            r.color_char@ == "&"@,
    {
        ChatConfig { color_char: "&".to_owned() }
    }
}

} // verus!
