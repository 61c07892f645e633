//! Resource pack, management server, data pack, and advanced configuration.

use vstd::prelude::*;

verus! {

/// Server resource pack settings.
#[derive(Debug, Clone)]
pub struct ResourcePackConfig {
    /// URL of the server resource pack (default `""`).
    pub url: String,
    /// SHA-1 hash of the resource pack (default `""`).
    pub sha1: String,
    /// Prompt shown to players for the resource pack (default `""`).
    pub prompt: String,
    /// Whether the resource pack is mandatory (default `false`).
    pub is_required: bool,
}

impl Default for ResourcePackConfig {
    fn default() -> (r: Self)
        ensures
            r.url@ == ""@,
            r.sha1@ == ""@,
            r.prompt@ == ""@,
            !r.is_required,
    {
        ResourcePackConfig {
            url: "".to_owned(),
            sha1: "".to_owned(),
            prompt: "".to_owned(),
            is_required: false,
        }
    }
}

/// Management server settings (26.1 feature).
///
/// Its debug text is produced outside the library with the secret
/// redacted.
#[derive(Clone)]
pub struct ManagementConfig {
    /// Enable the management server (default `false`).
    pub is_enabled: bool,
    /// Management server host (default `""`).
    pub host: String,
    /// Management server port; `0` means auto-assign (default `0`).
    pub port: u16,
    /// Shared secret for the management server (default `""`).
    pub secret: String,
    /// Require TLS on the management server (default `false`).
    pub is_tls_enabled: bool,
}

impl Default for ManagementConfig {
    fn default() -> (r: Self)
        ensures
            !r.is_enabled,
            r.host@ == ""@,
            r.port == 0,
            r.secret@ == ""@,
            !r.is_tls_enabled,
    {
        ManagementConfig {
            is_enabled: false,
            host: "".to_owned(),
            port: 0,
            secret: "".to_owned(),
            is_tls_enabled: false,
        }
    }
}

/// Data pack settings.
#[derive(Debug, Clone)]
pub struct PacksConfig {
    /// Data packs enabled at startup (default `"vanilla"`).
    pub initial_enabled: String,
    /// Data packs disabled at startup (default `""`).
    pub initial_disabled: String,
}

impl Default for PacksConfig {
    fn default() -> (r: Self)
        ensures
            r.initial_enabled@ == "vanilla"@,
            r.initial_disabled@ == ""@,
    {
        PacksConfig { initial_enabled: "vanilla".to_owned(), initial_disabled: "".to_owned() }
    }
}

/// Default inbound channel capacity (matches the protocol default).
pub const DEFAULT_INBOUND_CHANNEL_CAPACITY: usize = 128;

/// Default outbound channel capacity (matches the protocol default).
pub const DEFAULT_OUTBOUND_CHANNEL_CAPACITY: usize = 512;

/// Advanced / diagnostic settings.
#[derive(Debug, Clone)]
pub struct AdvancedConfig {
    /// External text-filtering service config path (default `""`).
    pub text_filtering_config: String,
    /// Text-filtering protocol version (default `0`).
    pub text_filtering_version: i32,
    /// Show a code-of-conduct prompt on join (default `false`).
    pub is_code_of_conduct_enabled: bool,
    /// Link to the server's bug report page (default `""`).
    pub bug_report_link: String,
    /// Inbound packet channel capacity per connection (default `128`).
    ///
    /// Backpressure: when game logic is slow to consume packets, the reader
    /// task blocks, triggering TCP flow control on the client.
    pub inbound_channel_capacity: usize,
    /// Outbound packet channel capacity per connection (default `512`).
    ///
    /// Sized for burst traffic (join sequence, chunk loading). If the writer
    /// cannot drain fast enough (slow client), senders see backpressure.
    pub outbound_channel_capacity: usize,
}

impl Default for AdvancedConfig {
    fn default() -> (r: Self)
        ensures
            r.text_filtering_config@ == ""@,
            r.text_filtering_version == 0,
            !r.is_code_of_conduct_enabled,
            r.bug_report_link@ == ""@,
            r.inbound_channel_capacity == DEFAULT_INBOUND_CHANNEL_CAPACITY,
            r.outbound_channel_capacity == DEFAULT_OUTBOUND_CHANNEL_CAPACITY,
    {
        AdvancedConfig {
            text_filtering_config: "".to_owned(),
            text_filtering_version: 0,
            is_code_of_conduct_enabled: false,
            bug_report_link: "".to_owned(),
            inbound_channel_capacity: DEFAULT_INBOUND_CHANNEL_CAPACITY,
            outbound_channel_capacity: DEFAULT_OUTBOUND_CHANNEL_CAPACITY,
        }
    }
}

} // verus!
