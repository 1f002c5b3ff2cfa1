//! The client's settings: what the user chose and what holds by default.
//! Reading and writing them is the program's part.

pub mod models;

use vstd::prelude::*;

verus! {

/// The size of the text.
#[derive(Debug, Clone, Copy, PartialEq, Eq, Structural)]
pub enum FontSizePreset {
    Small,
    Standard,
    Large,
}

impl Default for FontSizePreset {
    fn default() -> (r: FontSizePreset)
        ensures
            r == FontSizePreset::Standard,
    {
        FontSizePreset::Standard
    }
}

impl FontSizePreset {
    /// What the preset adds to the base size of the font, in whole points.
    pub open spec fn spec_offset(self) -> int {
        match self {
            FontSizePreset::Small => -2,
            FontSizePreset::Standard => 0,
            FontSizePreset::Large => 2,
        }
    }

    /// What the preset adds to the base size of the font, in whole points.
    pub fn offset(&self) -> (r: i32)
        ensures
            r == self.spec_offset(),
    {
        match self {
            FontSizePreset::Small => -2,
            FontSizePreset::Standard => 0,
            FontSizePreset::Large => 2,
        }
    }
}

/// How much room the messages of a conversation get.
#[derive(Debug, Clone, Copy, PartialEq, Eq, Structural)]
pub enum ChatDensity {
    Compact,
    Normal,
    Comfortable,
}

impl Default for ChatDensity {
    fn default() -> (r: ChatDensity)
        ensures
            r == ChatDensity::Normal,
    {
        ChatDensity::Normal
    }
}

impl ChatDensity {
    /// The space between two messages, in whole points.
    pub open spec fn spec_message_spacing(self) -> int {
        match self {
            ChatDensity::Compact => 4,
            ChatDensity::Normal => 8,
            ChatDensity::Comfortable => 12,
        }
    }

    /// The space between two messages, in whole points.
    pub fn message_spacing(&self) -> (r: u32)
        ensures
            r == self.spec_message_spacing(),
    {
        match self {
            ChatDensity::Compact => 4,
            ChatDensity::Normal => 8,
            ChatDensity::Comfortable => 12,
        }
    }
}

/// Whether the client starts a server where it finds none, unless told
/// otherwise.
pub fn default_auto_start() -> (r: bool)
    ensures
        r,
{
    true
}

/// How the client reaches its server.
#[derive(Debug, Clone, PartialEq, Eq)]
pub struct ServerConfig {
    pub last_base_url: Option<String>,
    pub auto_start: bool,
    pub directory_override: Option<String>,
}

impl Default for ServerConfig {
    fn default() -> (r: ServerConfig)
        ensures
            r.last_base_url is None,
            r.auto_start,
            r.directory_override is None,
    {
        ServerConfig {
            last_base_url: None,
            auto_start: default_auto_start(),
            directory_override: None,
        }
    }
}

/// The key that starts a recording while it is held, unless told otherwise.
pub fn default_push_to_talk_key() -> (r: String)
    ensures
        r@ == "AltRight"@,
{
    "AltRight".to_string()
}

/// The settings of speech input.
#[derive(Debug, Clone, PartialEq, Eq)]
pub struct AudioConfig {
    pub push_to_talk_key: String,
    pub whisper_model_path: Option<String>,
}

impl Default for AudioConfig {
    fn default() -> (r: AudioConfig)
        ensures
            r.push_to_talk_key@ == "AltRight"@,
            r.whisper_model_path is None,
    {
        AudioConfig { push_to_talk_key: default_push_to_talk_key(), whisper_model_path: None }
    }
}

} // verus!
