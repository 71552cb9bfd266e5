//! Application configuration.
//!
//! Configuration is loaded in priority order: environment variables
//! (`TAIMEN_*`), then the config file (`~/.config/taimen/config.toml`), then
//! the compiled-in defaults of [`TaimenConfig::default`]. Loading is done by
//! the server binary; this module holds the values and the tiers.
use vstd::prelude::*;

verus! {

/// Top-level configuration for the Taimen client.
#[derive(Debug, Clone)]
pub struct TaimenConfig {
    /// URL of the signaling / media server (e.g. `wss://meet.example.com`).
    pub server_url: String,
    /// Display name shown to other participants.
    pub display_name: String,
    /// Start with microphone muted.
    pub default_audio_muted: bool,
    /// Start with camera off.
    pub default_video_muted: bool,
    /// Preferred video resolution (e.g. "1280x720").
    pub video_resolution: String,
    /// Theme name for the GPU TUI (e.g. "dark", "light", "pleme").
    pub theme: String,
}

impl TaimenConfig {
    /// The compiled-in defaults: `ws://localhost:3000`, "Anonymous",
    /// unmuted, 1280x720, the dark theme.
    pub open spec fn is_default(self) -> bool {
        &&& self.server_url@ == "ws://localhost:3000"@
        &&& self.display_name@ == "Anonymous"@
        &&& !self.default_audio_muted
        &&& !self.default_video_muted
        &&& self.video_resolution@ == "1280x720"@
        &&& self.theme@ == "dark"@
    }

    /// The zero-opinion floor: every text empty, every flag off.
    pub open spec fn is_bare(self) -> bool {
        &&& self.server_url@ == Seq::<char>::empty()
        &&& self.display_name@ == Seq::<char>::empty()
        &&& !self.default_audio_muted
        &&& !self.default_video_muted
        &&& self.video_resolution@ == Seq::<char>::empty()
        &&& self.theme@ == Seq::<char>::empty()
    }

    /// Tier 0 — bare: zero-opinion floor. Empty server URL, empty display
    /// name, empty video resolution, empty theme — the minimum that won't try
    /// to connect anywhere or render without an explicit operator choice.
    pub fn bare() -> (c: TaimenConfig)
        ensures
            c.is_bare(),
    {
        TaimenConfig {
            server_url: String::new(),
            display_name: String::new(),
            default_audio_muted: false,
            default_video_muted: false,
            video_resolution: String::new(),
            theme: String::new(),
        }
    }

    /// Tier 2 — prescribed: the curated defaults shipped today
    /// (ws://localhost:3000, "Anonymous", 1280x720, "dark"), the same as
    /// [`TaimenConfig::default`].
    pub fn prescribed_default() -> (c: TaimenConfig)
        ensures
            c.is_default(),
    {
        TaimenConfig::default()
    }
}

impl Default for TaimenConfig {
    fn default() -> (c: TaimenConfig)
        ensures
            c.is_default(),
    {
        TaimenConfig {
            server_url: default_server_url(),
            display_name: default_display_name(),
            default_audio_muted: false,
            default_video_muted: false,
            video_resolution: default_video_resolution(),
            theme: default_theme(),
        }
    }
}

/// The default server URL.
pub fn default_server_url() -> (s: String)
    ensures
        s@ == "ws://localhost:3000"@,
{
    "ws://localhost:3000".to_owned()
}

/// The default display name.
pub fn default_display_name() -> (s: String)
    ensures
        s@ == "Anonymous"@,
{
    "Anonymous".to_owned()
}

/// The default video resolution.
pub fn default_video_resolution() -> (s: String)
    ensures
        s@ == "1280x720"@,
{
    "1280x720".to_owned()
}

/// The default theme.
pub fn default_theme() -> (s: String)
    ensures
        s@ == "dark"@,
{
    "dark".to_owned()
}

/// The bare tier and the prescribed tier differ: the defaults name a server
/// where the bare floor names none.
pub proof fn bare_differs_from_default(bare: TaimenConfig, prescribed: TaimenConfig)
    requires
        bare.is_bare(),
        prescribed.is_default(),
    ensures
        bare.server_url@ != prescribed.server_url@,
        bare.theme@ != prescribed.theme@,
{
    reveal_strlit("ws://localhost:3000");
    reveal_strlit("dark");
    assert(prescribed.server_url@.len() == 19);
    assert(prescribed.theme@.len() == 4);
}

} // verus!
