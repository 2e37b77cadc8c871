//! Playback control and timing for a catalog of audio tracks.
//!
//! The crate keeps the state of a single playback session: which track of an
//! ordered catalog is current, whether it is playing, paused or stopped, and
//! how long it has been playing. Time enters as plain nanosecond timestamps
//! that the caller reads from a monotonic clock, and decoding enters as a
//! function value, so every decision made here is a function of its inputs.
//! What the audio output has to be told comes back as a value.

pub mod clock;
pub mod control;
pub mod keys;
pub mod player;
pub mod track;

pub use clock::PlaybackClock;
pub use control::{Command, OutputAction};
pub use keys::{handle_key_event, App, Intent, Key, KeyOutcome};
pub use player::{MusicPlayer, PlayState, PlayerError, Progress, RepeatMode};
pub use track::{is_mp3_file, is_supported_audio_file, title_for, Track};
