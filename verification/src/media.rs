use vstd::prelude::*;
use vstd::string::StringExecFns;

verus! {

/// The state of a media player: playing or paused on a track, or stopped.
pub enum MediaState {
    Playing(String),
    Paused(String),
    Stopped,
}

/// The message that describes a media state, including the current track
/// where there is one.
pub open spec fn play_message(m: MediaState) -> Seq<char> {
    match m {
        MediaState::Playing(track) => "Playing "@ + track@,
        MediaState::Paused(track) => "Paused "@ + track@,
        MediaState::Stopped => "Nothing to play"@,
    }
}

impl MediaState {
    /// Describes the state in words: the track prefixed by what the player
    /// is doing with it, or a note that nothing is playing.
    pub fn play(&self) -> (r: String)
        ensures
            r@ == play_message(*self),
    {
        match self {
            MediaState::Playing(track) => String::from_str("Playing ").concat(track.as_str()),
            MediaState::Paused(track) => String::from_str("Paused ").concat(track.as_str()),
            MediaState::Stopped => String::from_str("Nothing to play"),
        }
    }
}

} // verus!
