//! Errors of speech input.

use vstd::prelude::*;

verus! {

#[derive(Debug, Clone, PartialEq, Eq)]
pub enum AudioError {
    NoMicrophoneFound,
    DeviceInitFailed(String),
    StreamStartFailed(String),
    NoAudioCaptured,
    ResampleFailed(String),
    ModelNotFound { path: String },
    ModelLoadFailed(String),
    TranscriptionFailed(String),
    FormatError(String),
    /// An error of the operating system, by its message.
    Io(String),
}

impl AudioError {
    /// The message that the error shows.
    pub open spec fn spec_message(self) -> Seq<char> {
        match self {
            AudioError::NoMicrophoneFound => "No microphone found. Please check your system audio settings."@,
            AudioError::DeviceInitFailed(e) => "Failed to initialize audio device: "@ + e@,
            AudioError::StreamStartFailed(e) => "Failed to start audio stream: "@ + e@,
            AudioError::NoAudioCaptured => "No audio captured (silence or too short)"@,
            AudioError::ResampleFailed(e) => "Failed to resample audio: "@ + e@,
            AudioError::ModelNotFound { path } => "Whisper model not found at: "@ + path@,
            AudioError::ModelLoadFailed(e) => "Failed to load Whisper model: "@ + e@,
            AudioError::TranscriptionFailed(e) => "Transcription failed: "@ + e@,
            AudioError::FormatError(e) => "Audio format error: "@ + e@,
            AudioError::Io(e) => "IO error: "@ + e@,
        }
    }

    /// The message that the error shows.
    pub fn message(&self) -> (r: String)
        ensures
            r@ == self.spec_message(),
    {
        match self {
            AudioError::NoMicrophoneFound => "No microphone found. Please check your system audio settings.".to_string(),
            AudioError::DeviceInitFailed(e) => "Failed to initialize audio device: ".to_string().concat(
                e.as_str(),
            ),
            AudioError::StreamStartFailed(e) => "Failed to start audio stream: ".to_string().concat(
                e.as_str(),
            ),
            AudioError::NoAudioCaptured => "No audio captured (silence or too short)".to_string(),
            AudioError::ResampleFailed(e) => "Failed to resample audio: ".to_string().concat(
                e.as_str(),
            ),
            AudioError::ModelNotFound { path } => "Whisper model not found at: ".to_string().concat(
                path.as_str(),
            ),
            AudioError::ModelLoadFailed(e) => "Failed to load Whisper model: ".to_string().concat(
                e.as_str(),
            ),
            AudioError::TranscriptionFailed(e) => "Transcription failed: ".to_string().concat(
                e.as_str(),
            ),
            AudioError::FormatError(e) => "Audio format error: ".to_string().concat(e.as_str()),
            AudioError::Io(e) => "IO error: ".to_string().concat(e.as_str()),
        }
    }
}

} // verus!
