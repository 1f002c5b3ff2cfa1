//! Push to talk: a recording runs while the chosen key is held.

use crate::text::same;
use vstd::prelude::*;

verus! {

/// Whether a recording runs.
#[derive(Debug, Clone, Copy, PartialEq, Eq, Structural)]
pub enum RecordingState {
    Idle,
    Recording,
}

/// What the audio task is told.
#[derive(Debug, Clone, Copy, PartialEq, Eq, Structural)]
pub enum AudioCmd {
    StartRecording,
    StopRecording,
    Shutdown,
}

/// The state after the push-to-talk key went down or up, and what the audio
/// task is told: pressing starts a recording where none runs, releasing stops
/// the one that runs, and nothing else has an effect.
pub open spec fn toggled(state: RecordingState, pressed: bool) -> (RecordingState, Option<AudioCmd>) {
    match (state, pressed) {
        (RecordingState::Idle, true) => (RecordingState::Recording, Some(AudioCmd::StartRecording)),
        (RecordingState::Recording, false) => (RecordingState::Idle, Some(AudioCmd::StopRecording)),
        _ => (state, None),
    }
}

/// The state after a key event. A repeat of a held key, and an event of a
/// key other than the chosen one, are ignored.
pub open spec fn after_key(
    state: RecordingState,
    key: Seq<char>,
    chosen: Seq<char>,
    pressed: bool,
    repeat: bool,
) -> (RecordingState, Option<AudioCmd>) {
    if repeat || key != chosen {
        (state, None)
    } else {
        toggled(state, pressed)
    }
}

/// Takes in that the push-to-talk key went down or up.
pub fn push_to_talk(state: RecordingState, pressed: bool) -> (r: (RecordingState, Option<AudioCmd>))
    ensures
        r == toggled(state, pressed),
{
    match (state, pressed) {
        (RecordingState::Idle, true) => (RecordingState::Recording, Some(AudioCmd::StartRecording)),
        (RecordingState::Recording, false) => (RecordingState::Idle, Some(AudioCmd::StopRecording)),
        _ => (state, None),
    }
}

/// Takes in a key event.
pub fn on_key(state: RecordingState, key: &str, chosen: &str, pressed: bool, repeat: bool) -> (r: (
    RecordingState,
    Option<AudioCmd>,
))
    ensures
        r == after_key(state, key@, chosen@, pressed, repeat),
{
    if repeat || !same(key, chosen) {
        (state, None)
    } else {
        push_to_talk(state, pressed)
    }
}

} // verus!
