//! The playback controller: which track is current, and what it is doing.

use crate::clock::{ClockModel, PlaybackClock};
use crate::track::{is_mp3, is_supported, is_supported_audio_file, Track};
use vstd::prelude::*;
use vstd::string::*;

verus! {

/// What follows a track that has played to its end: under `One` the same
/// track again, under `Off` and `All` the next one. The commands themselves
/// never read the mode; only the check for a finished track does.
#[derive(Clone, Copy, Debug, PartialEq, Eq, Structural)]
pub enum RepeatMode {
    Off,
    One,
    All,
}

impl RepeatMode {
    /// The mode that follows this one: `Off`, `One`, `All`, and `Off` again.
    pub open spec fn successor(self) -> RepeatMode {
        match self {
            RepeatMode::Off => RepeatMode::One,
            RepeatMode::One => RepeatMode::All,
            RepeatMode::All => RepeatMode::Off,
        }
    }

    /// The mode's name as it is shown.
    pub open spec fn label(self) -> Seq<char> {
        match self {
            RepeatMode::Off => seq!['O', 'f', 'f'],
            RepeatMode::One => seq!['O', 'n', 'e'],
            RepeatMode::All => seq!['A', 'l', 'l'],
        }
    }

    /// The mode that follows this one.
    pub fn next(self) -> (mode: RepeatMode)
        ensures
            mode == self.successor(),
    {
        match self {
            RepeatMode::Off => RepeatMode::One,
            RepeatMode::One => RepeatMode::All,
            RepeatMode::All => RepeatMode::Off,
        }
    }

    /// The mode's name as it is shown: `Off`, `One` or `All`.
    pub fn name(self) -> (text: String)
        ensures
            text@ == self.label(),
    {
        proof {
            reveal_strlit("Off");
            reveal_strlit("One");
            reveal_strlit("All");
        }
        assert("Off"@ =~= seq!['O', 'f', 'f']);
        assert("One"@ =~= seq!['O', 'n', 'e']);
        assert("All"@ =~= seq!['A', 'l', 'l']);
        match self {
            RepeatMode::Off => String::from_str("Off"),
            RepeatMode::One => String::from_str("One"),
            RepeatMode::All => String::from_str("All"),
        }
    }
}

/// What the controller is doing.
#[derive(Clone, Copy, Debug, PartialEq, Eq, Structural)]
pub enum PlayState {
    Stopped,
    Playing,
    Paused,
}

/// Why the controller could not do what was asked.
#[derive(Clone, Copy, Debug, PartialEq, Eq, Structural)]
pub enum PlayerError {
    /// Nothing playable was handed over at load time.
    EmptyCatalog,
    /// Every track of the catalog failed to decode.
    NoPlayableTrack,
}

/// The position after `index` in a catalog of `len` tracks, the first
/// following the last.
pub open spec fn index_after(index: int, len: int) -> int {
    if index + 1 >= len {
        0
    } else {
        index + 1
    }
}

/// The position before `index` in a catalog of `len` tracks, the last
/// preceding the first.
pub open spec fn index_before(index: int, len: int) -> int {
    if index == 0 {
        len - 1
    } else {
        index - 1
    }
}

/// Whether position `j` is met before `to` when walking forward from
/// `from`, the first position following the last.
pub open spec fn passed_over(from: int, to: int, j: int) -> bool {
    if from <= to {
        from <= j < to
    } else {
        j >= from || j < to
    }
}

/// The number of steps forward from `from` to `to` in a catalog of `len`
/// tracks.
spec fn steps_between(from: int, to: int, len: int) -> int {
    if from <= to {
        to - from
    } else {
        to + len - from
    }
}

/// Whether `decode` can fail on `track`.
pub open spec fn fails_on<S, D: Fn(&Track) -> Option<S>>(decode: D, track: Track) -> bool {
    call_ensures(decode, (&track,), None::<S>)
}

/// Whether `decode` can turn `track` into `stream`.
pub open spec fn yields<S, D: Fn(&Track) -> Option<S>>(
    decode: D,
    track: Track,
    stream: S,
) -> bool {
    call_ensures(decode, (&track,), Some(stream))
}

/// Whether `decode` may be called on every track of `tracks`.
pub open spec fn accepts_all<S, D: Fn(&Track) -> Option<S>>(
    decode: D,
    tracks: Seq<Track>,
) -> bool {
    forall|j: int| 0 <= j < tracks.len() ==> call_requires(decode, (&#[trigger] tracks[j],))
}

/// Whether the search from `from` came to rest at `found` with every track
/// that it passed over failing to decode.
pub open spec fn first_playable<S, D: Fn(&Track) -> Option<S>>(
    decode: D,
    tracks: Seq<Track>,
    from: int,
    found: int,
    stream: S,
) -> bool {
    &&& 0 <= found < tracks.len()
    &&& yields(decode, tracks[found], stream)
    &&& forall|j: int|
        0 <= j < tracks.len() && passed_over(from, found, j) ==> fails_on(
            decode,
            #[trigger] tracks[j],
        )
}

/// Whether every track of `tracks` failed to decode.
pub open spec fn none_playable<S, D: Fn(&Track) -> Option<S>>(
    decode: D,
    tracks: Seq<Track>,
) -> bool {
    forall|j: int| 0 <= j < tracks.len() ==> fails_on(decode, #[trigger] tracks[j])
}

/// What an attempt to play, with the search for a playable track beginning
/// at `from`, makes of the controller `before`.
///
/// With an empty catalog nothing happens and nothing is handed back. With
/// a track that decodes, the first such track from `from` on is current and
/// playing since `now`, and its stream is handed back. With none, the
/// controller is stopped at `from` and the attempt fails.
pub open spec fn play_outcome<S, D: Fn(&Track) -> Option<S>>(
    before: PlayerView,
    from: int,
    now: u64,
    decode: D,
    after: PlayerView,
    result: Result<Option<S>, PlayerError>,
) -> bool {
    match result {
        Ok(Some(stream)) => {
            &&& first_playable(decode, before.tracks, from, after.current_index, stream)
            &&& after == before.playing(after.current_index, now)
        },
        Ok(None) => before.tracks.len() == 0 && after == before,
        Err(e) => {
            &&& e == PlayerError::NoPlayableTrack
            &&& before.tracks.len() > 0
            &&& none_playable(decode, before.tracks)
            &&& after == before.at_index(from).stopped()
        },
    }
}

/// How far past its known length a track may run before it counts as
/// finished although the output has not reported so: half a second.
pub const GRACE_NANOS: u64 = 500_000_000;

/// The length, in nanoseconds, assumed for display where a track's length
/// is unknown: five minutes.
pub const FALLBACK_NANOS: u64 = 300_000_000_000;

/// How much of a track has played, as the fraction `part / whole`.
#[derive(Clone, Copy, Debug, PartialEq, Eq, Structural)]
pub struct Progress {
    pub part: u64,
    pub whole: u64,
}

impl Progress {
    /// The fraction that stands for all of the track.
    pub open spec fn full() -> Progress {
        Progress { part: 1, whole: 1 }
    }

    /// Whether this is a fraction between zero and one.
    pub open spec fn wf(self) -> bool {
        0 < self.whole && self.part <= self.whole
    }

    /// Whether the fraction is one.
    pub open spec fn is_full(self) -> bool {
        self.part == self.whole
    }

    /// Whether the fraction is one.
    pub fn is_complete(&self) -> (full: bool)
        ensures
            full == self.is_full(),
    {
        self.part == self.whole
    }
}

/// Whether `tracks` is the catalog that `paths` yields when `probe` measures
/// files: one track for each path with a supported extension, in the order
/// of the paths, each describing its path.
pub open spec fn catalog_of<P: Fn(&String) -> Option<u64>>(
    paths: Seq<String>,
    probe: P,
    tracks: Seq<Track>,
) -> bool {
    let kept = paths.filter(|path: String| is_supported(path@));
    &&& tracks.len() == kept.len()
    &&& forall|i: int| 0 <= i < kept.len() ==> (#[trigger] tracks[i]).describes(kept[i], probe)
}

/// What a controller stands for.
pub struct PlayerView {
    pub tracks: Seq<Track>,
    pub current_index: int,
    pub paused: bool,
    pub shuffled: bool,
    pub repeat_mode: RepeatMode,
    pub clock: ClockModel,
}

impl PlayerView {
    /// `Paused` while the pause flag is up, `Playing` while the clock runs,
    /// `Stopped` otherwise.
    pub open spec fn state(self) -> PlayState {
        if self.paused {
            PlayState::Paused
        } else if self.clock.running() {
            PlayState::Playing
        } else {
            PlayState::Stopped
        }
    }

    /// The rules that every controller keeps: the number of tracks is held
    /// in a `usize` and the banked time in a `u64`, the current index lies in
    /// the catalog (at zero when the catalog is empty), the clock stands
    /// still while paused, it reads zero while stopped, and an empty catalog
    /// is always stopped.
    pub open spec fn wf(self) -> bool {
        &&& 0 <= self.current_index
        &&& self.tracks.len() <= usize::MAX
        &&& self.tracks.len() == 0 ==> self.current_index == 0
        &&& self.tracks.len() > 0 ==> self.current_index < self.tracks.len()
        &&& self.clock.accumulated <= u64::MAX
        &&& self.paused ==> !self.clock.running()
        &&& self.state() is Stopped ==> self.clock == ClockModel::zero()
        &&& self.tracks.len() == 0 ==> self.state() is Stopped
    }

    /// The current track, if the catalog has one.
    pub open spec fn current_track(self) -> Option<Track> {
        if 0 <= self.current_index < self.tracks.len() {
            Some(self.tracks[self.current_index])
        } else {
            None
        }
    }

    /// The same controller with another current index.
    pub open spec fn at_index(self, index: int) -> PlayerView {
        PlayerView { current_index: index, ..self }
    }

    /// The controller after playback is stopped: unpaused, clock at zero.
    pub open spec fn stopped(self) -> PlayerView {
        PlayerView { paused: false, clock: ClockModel::zero(), ..self }
    }

    /// The controller after the track at `index` begins to play at `now`.
    pub open spec fn playing(self, index: int, now: u64) -> PlayerView {
        PlayerView {
            current_index: index,
            paused: false,
            clock: ClockModel::zero().start(now),
            ..self
        }
    }

    /// The controller after pause is toggled at `now`: a playing one pauses
    /// and banks the running stretch, a paused one resumes, a stopped one
    /// stays as it is.
    pub open spec fn pause_toggled(self, now: u64) -> PlayerView {
        match self.state() {
            PlayState::Playing => PlayerView { paused: true, clock: self.clock.pause(now), ..self },
            PlayState::Paused => PlayerView { paused: false, clock: self.clock.start(now), ..self },
            PlayState::Stopped => self,
        }
    }

    /// Total elapsed playing time of the current track as of `now`.
    pub open spec fn elapsed_at(self, now: u64) -> nat {
        self.clock.elapsed_at(now)
    }

    /// The known length of the current track, in nanoseconds.
    pub open spec fn known_duration(self) -> Option<u64> {
        match self.current_track() {
            Some(track) => track.duration,
            None => None,
        }
    }

    /// Whether the current track has played to its end as of `now`: the
    /// output has nothing left of it (`drained`), or its length is known and
    /// it has played for that long and the grace margin on top. A track of
    /// unknown length ends only when the output says so.
    pub open spec fn finished_at(self, now: u64, drained: bool) -> bool {
        drained || match self.known_duration() {
            Some(length) => self.elapsed_at(now) >= length + GRACE_NANOS,
            None => false,
        }
    }

    /// The length, in nanoseconds, that the current track is taken to have
    /// for display: its known length, or five minutes.
    pub open spec fn estimate(self) -> nat {
        match self.known_duration() {
            Some(length) => length as nat,
            None => FALLBACK_NANOS as nat,
        }
    }

    /// The progress of the current track as of `now`: the time played over
    /// the estimate, and never more than one. It is full once the track has
    /// finished. Before that it is full only where the time played has
    /// reached an estimate that is not zero; against an estimate of zero
    /// nothing has played until the track finishes.
    pub open spec fn progress_at(self, now: u64, drained: bool) -> Progress {
        if self.finished_at(now, drained) {
            Progress::full()
        } else if self.estimate() == 0 {
            Progress { part: 0, whole: 1 }
        } else if self.elapsed_at(now) >= self.estimate() {
            Progress::full()
        } else {
            Progress { part: self.elapsed_at(now) as u64, whole: self.estimate() as u64 }
        }
    }
}

/// A playback session over a catalog of tracks.
pub struct MusicPlayer {
    tracks: Vec<Track>,
    current_index: usize,
    is_paused: bool,
    is_shuffled: bool,
    repeat_mode: RepeatMode,
    clock: PlaybackClock,
}

impl View for MusicPlayer {
    type V = PlayerView;

    closed spec fn view(&self) -> PlayerView {
        PlayerView {
            tracks: self.tracks@,
            current_index: self.current_index as int,
            paused: self.is_paused,
            shuffled: self.is_shuffled,
            repeat_mode: self.repeat_mode,
            clock: self.clock@,
        }
    }
}

impl MusicPlayer {
    /// Whether the elapsed time as of `now` can be held in a `u64`.
    pub open spec fn measurable(&self, now: u64) -> bool {
        self@.elapsed_at(now) <= u64::MAX
    }

    /// A stopped controller with an empty catalog, shuffle off and repeat
    /// off.
    pub fn new() -> (player: MusicPlayer)
        ensures
            player@.wf(),
            player@.tracks.len() == 0,
            player@.current_index == 0,
            player@.state() is Stopped,
            !player@.shuffled,
            player@.repeat_mode == RepeatMode::Off,
    {
        MusicPlayer {
            tracks: Vec::new(),
            current_index: 0,
            is_paused: false,
            is_shuffled: false,
            repeat_mode: RepeatMode::Off,
            clock: PlaybackClock::new(),
        }
    }

    /// Whether the elapsed time as of `now` can be held in a `u64`, which
    /// `elapsed` asks of its callers, and `toggle_pause` where it pauses.
    pub fn can_measure(&self, now: u64) -> (ok: bool)
        ensures
            ok == self.measurable(now),
    {
        self.clock.can_measure(now)
    }

    /// What the controller is doing.
    pub fn state(&self) -> (state: PlayState)
        ensures
            state == self@.state(),
    {
        if self.is_paused {
            PlayState::Paused
        } else if self.clock.is_running() {
            PlayState::Playing
        } else {
            PlayState::Stopped
        }
    }

    /// The position of the current track in the catalog.
    pub fn current_index(&self) -> (index: usize)
        ensures
            index == self@.current_index,
    {
        self.current_index
    }

    /// Whether playback is paused.
    pub fn is_paused(&self) -> (paused: bool)
        ensures
            paused == self@.paused,
    {
        self.is_paused
    }

    /// Whether shuffle is on.
    pub fn is_shuffled(&self) -> (shuffled: bool)
        ensures
            shuffled == self@.shuffled,
    {
        self.is_shuffled
    }

    /// The repeat mode.
    pub fn repeat_mode(&self) -> (mode: RepeatMode)
        ensures
            mode == self@.repeat_mode,
    {
        self.repeat_mode
    }

    /// The current track, if the catalog has one.
    pub fn current_track(&self) -> (track: Option<&Track>)
        ensures
            match track {
                Some(t) => self@.current_track() == Some(*t),
                None => self@.current_track() is None,
            },
    {
        if self.current_index < self.tracks.len() {
            Some(&self.tracks[self.current_index])
        } else {
            None
        }
    }

    /// The catalog, in playing order.
    pub fn tracks(&self) -> (tracks: &Vec<Track>)
        ensures
            tracks@ == self@.tracks,
    {
        &self.tracks
    }

    /// The number of tracks in the catalog.
    pub fn track_count(&self) -> (count: usize)
        ensures
            count == self@.tracks.len(),
    {
        self.tracks.len()
    }

    /// Total elapsed playing time of the current track as of `now`, in
    /// nanoseconds.
    pub fn elapsed(&self, now: u64) -> (total: u64)
        requires
            self.measurable(now),
        ensures
            total == self@.elapsed_at(now),
    {
        self.clock.elapsed(now)
    }

    /// Makes the track at `index` current without touching playback.
    pub fn cue(&mut self, index: usize)
        requires
            old(self)@.wf(),
            index < old(self)@.tracks.len() || (index == 0 && old(self)@.tracks.len() == 0),
        ensures
            final(self)@.wf(),
            final(self)@ == old(self)@.at_index(index as int),
    {
        self.current_index = index;
    }

    /// Pauses a playing track, resumes a paused one, and leaves a stopped
    /// controller as it is.
    pub fn toggle_pause(&mut self, now: u64)
        requires
            old(self)@.wf(),
            old(self)@.state() is Playing ==> old(self).measurable(now),
        ensures
            final(self)@.wf(),
            final(self)@ == old(self)@.pause_toggled(now),
    {
        if self.is_paused {
            self.clock.start(now);
            self.is_paused = false;
        } else if self.clock.is_running() {
            self.clock.pause(now);
            self.is_paused = true;
        }
    }

    /// Stops playback: the pause flag is cleared and the clock returns to
    /// zero. The catalog, the current index and the modes stay.
    pub fn stop(&mut self)
        requires
            old(self)@.wf(),
        ensures
            final(self)@.wf(),
            final(self)@ == old(self)@.stopped(),
            final(self)@.state() is Stopped,
    {
        self.is_paused = false;
        self.clock.reset();
    }

    /// Turns shuffle on if it is off, and off if it is on.
    pub fn toggle_shuffle(&mut self)
        ensures
            final(self)@ == (PlayerView { shuffled: !old(self)@.shuffled, ..old(self)@ }),
    {
        self.is_shuffled = !self.is_shuffled;
    }

    /// Moves the repeat mode on by one: `Off`, `One`, `All`, and `Off` again.
    pub fn cycle_repeat(&mut self)
        ensures
            final(self)@ == (PlayerView {
                repeat_mode: old(self)@.repeat_mode.successor(),
                ..old(self)@
            }),
    {
        self.repeat_mode = self.repeat_mode.next();
    }

    /// Looks for a track that decodes, beginning with the current one and
    /// walking forward, the first track following the last, until one
    /// decodes or every track has been tried once. The first that decodes
    /// becomes the current track and is handed back with its position. Where
    /// none does, or the catalog is empty, the current index is left where
    /// it was. Nothing but the current index changes.
    pub fn find_next_playable<S, D: Fn(&Track) -> Option<S>>(
        &mut self,
        decode: D,
    ) -> (found: Option<(usize, S)>)
        requires
            old(self)@.wf(),
            accepts_all(decode, old(self)@.tracks),
        ensures
            final(self)@.wf(),
            match found {
                Some((k, stream)) => {
                    &&& final(self)@ == old(self)@.at_index(k as int)
                    &&& first_playable(
                        decode,
                        old(self)@.tracks,
                        old(self)@.current_index,
                        k as int,
                        stream,
                    )
                },
                None => {
                    &&& final(self)@ == old(self)@
                    &&& none_playable(decode, old(self)@.tracks)
                },
            },
    {
        let n: usize = self.tracks.len();
        if n == 0 {
            return None;
        }
        let start: usize = self.current_index;
        let mut attempts: usize = 0;
        while attempts < n
            invariant
                n == self.tracks.len(),
                n > 0,
                start < n,
                self.current_index < n,
                attempts <= n,
                attempts < n ==> attempts == steps_between(
                    start as int,
                    self.current_index as int,
                    n as int,
                ),
                attempts == n ==> self.current_index == start,
                self@ == old(self)@.at_index(self.current_index as int),
                old(self)@.wf(),
                start == old(self)@.current_index,
                accepts_all(decode, old(self)@.tracks),
                forall|j: int|
                    0 <= j < n && (attempts == n || passed_over(
                        start as int,
                        self.current_index as int,
                        j,
                    )) ==> fails_on(decode, #[trigger] old(self)@.tracks[j]),
            decreases n - attempts,
        {
            let here: usize = self.current_index;
            match decode(&self.tracks[here]) {
                Some(stream) => {
                    return Some((here, stream));
                },
                None => {},
            }
            self.current_index = if here + 1 >= n {
                0
            } else {
                here + 1
            };
            attempts = attempts + 1;
        }
        None
    }

    /// Plays the current track from its beginning or, where it does not
    /// decode, the first track after it that does. The stream that is handed
    /// back is the one to put in place of whatever the output was playing.
    /// Where no track decodes, playback is stopped and the attempt fails with
    /// `NoPlayableTrack`. With an empty catalog nothing happens.
    pub fn play_current<S, D: Fn(&Track) -> Option<S>>(
        &mut self,
        now: u64,
        decode: D,
    ) -> (result: Result<Option<S>, PlayerError>)
        requires
            old(self)@.wf(),
            accepts_all(decode, old(self)@.tracks),
        ensures
            final(self)@.wf(),
            play_outcome(
                old(self)@,
                old(self)@.current_index,
                now,
                decode,
                final(self)@,
                result,
            ),
    {
        if self.tracks.len() == 0 {
            return Ok(None);
        }
        self.stop();
        match self.find_next_playable(decode) {
            Some((_, stream)) => {
                self.clock.start(now);
                Ok(Some(stream))
            },
            None => Err(PlayerError::NoPlayableTrack),
        }
    }

    /// Makes the track at `index` current and plays it, as `play_current`
    /// does. With an empty catalog nothing happens.
    pub fn select<S, D: Fn(&Track) -> Option<S>>(
        &mut self,
        index: usize,
        now: u64,
        decode: D,
    ) -> (result: Result<Option<S>, PlayerError>)
        requires
            old(self)@.wf(),
            old(self)@.tracks.len() > 0 ==> index < old(self)@.tracks.len(),
            accepts_all(decode, old(self)@.tracks),
        ensures
            final(self)@.wf(),
            play_outcome(old(self)@, index as int, now, decode, final(self)@, result),
    {
        if self.tracks.len() == 0 {
            return Ok(None);
        }
        self.current_index = index;
        self.play_current(now, decode)
    }

    /// Moves on to the track after the current one, the first following the
    /// last, and plays it, as `play_current` does. With an empty catalog
    /// nothing happens.
    pub fn next_track<S, D: Fn(&Track) -> Option<S>>(
        &mut self,
        now: u64,
        decode: D,
    ) -> (result: Result<Option<S>, PlayerError>)
        requires
            old(self)@.wf(),
            accepts_all(decode, old(self)@.tracks),
        ensures
            final(self)@.wf(),
            play_outcome(
                old(self)@,
                index_after(old(self)@.current_index, old(self)@.tracks.len() as int),
                now,
                decode,
                final(self)@,
                result,
            ),
    {
        let n: usize = self.tracks.len();
        if n == 0 {
            return Ok(None);
        }
        self.current_index = if self.current_index + 1 >= n {
            0
        } else {
            self.current_index + 1
        };
        self.play_current(now, decode)
    }

    /// Moves back to the track before the current one, the last preceding
    /// the first, and plays it, as `play_current` does. With an empty
    /// catalog nothing happens.
    pub fn previous_track<S, D: Fn(&Track) -> Option<S>>(
        &mut self,
        now: u64,
        decode: D,
    ) -> (result: Result<Option<S>, PlayerError>)
        requires
            old(self)@.wf(),
            accepts_all(decode, old(self)@.tracks),
        ensures
            final(self)@.wf(),
            play_outcome(
                old(self)@,
                index_before(old(self)@.current_index, old(self)@.tracks.len() as int),
                now,
                decode,
                final(self)@,
                result,
            ),
    {
        let n: usize = self.tracks.len();
        if n == 0 {
            return Ok(None);
        }
        self.current_index = if self.current_index == 0 {
            n - 1
        } else {
            self.current_index - 1
        };
        self.play_current(now, decode)
    }

    /// Whether the current track has played to its end as of `now`.
    /// `drained` is what the output reports: that it has nothing left to
    /// play. A track of known length also ends once it has played for its
    /// length and half a second more, whatever the output reports. A track
    /// of unknown length ends only when the output says so.
    pub fn is_track_finished(&self, now: u64, drained: bool) -> (finished: bool)
        ensures
            finished == self@.finished_at(now, drained),
    {
        if drained {
            return true;
        }
        if self.current_index < self.tracks.len() {
            if let Some(length) = self.tracks[self.current_index].duration {
                return self.clock.elapsed_wide(now) >= length as u128 + GRACE_NANOS as u128;
            }
        }
        false
    }

    /// Whether the output has come to the end of what it was given: the
    /// same as `is_track_finished`.
    pub fn is_empty(&self, now: u64, drained: bool) -> (finished: bool)
        ensures
            finished == self@.finished_at(now, drained),
    {
        self.is_track_finished(now, drained)
    }

    /// How much of the current track has played as of `now`, as a fraction
    /// between zero and one: the nanoseconds played over the nanoseconds of
    /// the track's known length, or over five minutes where the length is
    /// unknown, and never more than one. It is one once the track has
    /// finished. A track of no length at all shows zero until it finishes.
    pub fn get_progress(&self, now: u64, drained: bool) -> (progress: Progress)
        ensures
            progress == self@.progress_at(now, drained),
            progress.wf(),
    {
        if self.is_track_finished(now, drained) {
            return Progress { part: 1, whole: 1 };
        }
        let mut estimate: u64 = FALLBACK_NANOS;
        if self.current_index < self.tracks.len() {
            if let Some(length) = self.tracks[self.current_index].duration {
                estimate = length;
            }
        }
        let played: u128 = self.clock.elapsed_wide(now);
        if estimate == 0 {
            Progress { part: 0, whole: 1 }
        } else if played >= estimate as u128 {
            Progress { part: 1, whole: 1 }
        } else {
            Progress { part: played as u64, whole: estimate }
        }
    }

    /// Replaces the catalog by `tracks`, in the order given, and leaves the
    /// controller stopped at the first of them. The modes stay as they are.
    /// Fails with `EmptyCatalog` where `tracks` is empty; the catalog is then
    /// empty.
    pub fn load(&mut self, tracks: Vec<Track>) -> (result: Result<(), PlayerError>)
        ensures
            final(self)@.wf(),
            final(self)@ == (PlayerView {
                tracks: tracks@,
                current_index: 0,
                ..old(self)@.stopped()
            }),
            match result {
                Ok(()) => tracks@.len() > 0,
                Err(e) => e == PlayerError::EmptyCatalog && tracks@.len() == 0,
            },
    {
        self.tracks = tracks;
        self.current_index = 0;
        self.is_paused = false;
        self.clock.reset();
        if self.tracks.len() == 0 {
            Err(PlayerError::EmptyCatalog)
        } else {
            Ok(())
        }
    }

    /// Replaces the catalog by the files among `paths` that have a supported
    /// extension, in the order given, and leaves the controller stopped at
    /// the first of them. Each MP3 file is handed to `probe` for its length.
    /// The modes stay as they are. Fails with `EmptyCatalog` where no path is
    /// supported; the catalog is then empty.
    pub fn load_music<P: Fn(&String) -> Option<u64>>(
        &mut self,
        paths: Vec<String>,
        probe: P,
    ) -> (result: Result<(), PlayerError>)
        requires
            forall|i: int|
                0 <= i < paths@.len() && is_mp3((#[trigger] paths@[i])@) ==> call_requires(
                    probe,
                    (&paths@[i],),
                ),
        ensures
            final(self)@.wf(),
            catalog_of(paths@, probe, final(self)@.tracks),
            final(self)@ == (PlayerView {
                tracks: final(self)@.tracks,
                current_index: 0,
                ..old(self)@.stopped()
            }),
            match result {
                Ok(()) => final(self)@.tracks.len() > 0,
                Err(e) => e == PlayerError::EmptyCatalog && final(self)@.tracks.len() == 0,
            },
    {
        let ghost supported = |path: String| is_supported(path@);
        let mut tracks: Vec<Track> = Vec::new();
        let mut i: usize = 0;
        assert(paths@.take(0).filter(supported) =~= Seq::<String>::empty()) by {
            reveal(Seq::filter);
        }
        while i < paths.len()
            invariant
                i <= paths.len(),
                forall|j: int|
                    0 <= j < paths@.len() && is_mp3((#[trigger] paths@[j])@) ==> call_requires(
                        probe,
                        (&paths@[j],),
                    ),
                supported == |path: String| is_supported(path@),
                tracks@.len() == paths@.take(i as int).filter(supported).len(),
                forall|j: int|
                    0 <= j < tracks@.len() ==> (#[trigger] tracks@[j]).describes(
                        paths@.take(i as int).filter(supported)[j],
                        probe,
                    ),
            decreases paths.len() - i,
        {
            let ghost before = paths@.take(i as int).filter(supported);
            proof {
                reveal(Seq::filter);
                assert(paths@.take(i + 1).drop_last() =~= paths@.take(i as int));
                assert(paths@.take(i + 1).last() == paths@[i as int]);
            }
            if is_supported_audio_file(paths[i].as_str()) {
                let track = Track::new(paths[i].clone(), &probe);
                tracks.push(track);
                assert(paths@.take(i + 1).filter(supported) =~= before.push(paths@[i as int]));
            } else {
                assert(paths@.take(i + 1).filter(supported) =~= before);
            }
            i = i + 1;
        }
        assert(paths@.take(i as int) =~= paths@);
        self.load(tracks)
    }
}

/// Stepping forward and then back, or back and then forward, ends where it
/// began. In a catalog of one track either step stays in place.
pub proof fn steps_undo_each_other(index: int, len: int)
    requires
        0 <= index < len,
    ensures
        index_before(index_after(index, len), len) == index,
        index_after(index_before(index, len), len) == index,
        0 <= index_after(index, len) < len,
        0 <= index_before(index, len) < len,
        len == 1 ==> index_after(index, len) == index && index_before(index, len) == index,
{
}

/// Where the track at which the search begins can only decode, the attempt
/// to play succeeds with exactly that track.
pub proof fn playable_target_is_played<S, D: Fn(&Track) -> Option<S>>(
    before: PlayerView,
    from: int,
    now: u64,
    decode: D,
    after: PlayerView,
    result: Result<Option<S>, PlayerError>,
)
    requires
        0 <= from < before.tracks.len(),
        !fails_on(decode, before.tracks[from]),
        play_outcome(before, from, now, decode, after, result),
    ensures
        result is Ok,
        result->Ok_0 is Some,
        after == before.playing(from, now),
        after.state() is Playing,
{
    match result {
        Ok(Some(stream)) => {
            if after.current_index != from {
                assert(passed_over(from, after.current_index, from));
                assert(fails_on(decode, before.tracks[from]));
            }
        },
        Ok(None) => {},
        Err(_) => {
            assert(fails_on(decode, before.tracks[from]));
        },
    }
}

/// Next and then previous returns to the track that was current, provided
/// that the track stepped to and the track returned to can only decode: a
/// track that fails to decode is skipped, and the walk then ends elsewhere.
pub proof fn next_then_previous_returns<S, D: Fn(&Track) -> Option<S>>(
    start: PlayerView,
    between: PlayerView,
    end: PlayerView,
    first_now: u64,
    second_now: u64,
    decode: D,
    first: Result<Option<S>, PlayerError>,
    second: Result<Option<S>, PlayerError>,
)
    requires
        start.wf(),
        start.tracks.len() > 0,
        play_outcome(
            start,
            index_after(start.current_index, start.tracks.len() as int),
            first_now,
            decode,
            between,
            first,
        ),
        play_outcome(
            between,
            index_before(between.current_index, between.tracks.len() as int),
            second_now,
            decode,
            end,
            second,
        ),
        !fails_on(
            decode,
            start.tracks[index_after(start.current_index, start.tracks.len() as int)],
        ),
        !fails_on(decode, start.tracks[start.current_index]),
    ensures
        end.current_index == start.current_index,
        end.state() is Playing,
        end.tracks == start.tracks,
{
    let len = start.tracks.len() as int;
    let target = index_after(start.current_index, len);
    steps_undo_each_other(start.current_index, len);
    playable_target_is_played(start, target, first_now, decode, between, first);
    playable_target_is_played(between, start.current_index, second_now, decode, end, second);
}

/// Previous and then next returns to the track that was current, under the
/// same proviso.
pub proof fn previous_then_next_returns<S, D: Fn(&Track) -> Option<S>>(
    start: PlayerView,
    between: PlayerView,
    end: PlayerView,
    first_now: u64,
    second_now: u64,
    decode: D,
    first: Result<Option<S>, PlayerError>,
    second: Result<Option<S>, PlayerError>,
)
    requires
        start.wf(),
        start.tracks.len() > 0,
        play_outcome(
            start,
            index_before(start.current_index, start.tracks.len() as int),
            first_now,
            decode,
            between,
            first,
        ),
        play_outcome(
            between,
            index_after(between.current_index, between.tracks.len() as int),
            second_now,
            decode,
            end,
            second,
        ),
        !fails_on(
            decode,
            start.tracks[index_before(start.current_index, start.tracks.len() as int)],
        ),
        !fails_on(decode, start.tracks[start.current_index]),
    ensures
        end.current_index == start.current_index,
        end.state() is Playing,
        end.tracks == start.tracks,
{
    let len = start.tracks.len() as int;
    let target = index_before(start.current_index, len);
    steps_undo_each_other(start.current_index, len);
    playable_target_is_played(start, target, first_now, decode, between, first);
    playable_target_is_played(between, start.current_index, second_now, decode, end, second);
}

/// Progress is always a fraction between zero and one.
pub proof fn progress_is_a_fraction(player: PlayerView, now: u64, drained: bool)
    ensures
        player.progress_at(now, drained).wf(),
{
}

/// A finished track shows full progress.
pub proof fn finished_shows_full(player: PlayerView, now: u64, drained: bool)
    requires
        player.finished_at(now, drained),
    ensures
        player.progress_at(now, drained).is_full(),
{
}

/// Progress is full exactly when the track has finished, as long as the
/// time played is less than the estimate, or the estimate is zero. Once the
/// time played has reached an estimate that is not zero, progress is full
/// although the track may go on: within the grace margin of a known length,
/// or past the five minutes assumed for an unknown one.
pub proof fn full_means_finished(player: PlayerView, now: u64, drained: bool)
    requires
        player.elapsed_at(now) < player.estimate() || player.estimate() == 0,
    ensures
        player.progress_at(now, drained).is_full() <==> player.finished_at(now, drained),
{
}

/// A track of unknown length has finished exactly when the output has
/// nothing left of it, whatever the clock reads.
pub proof fn unknown_length_ends_when_drained(player: PlayerView, now: u64, drained: bool)
    requires
        player.known_duration() is None,
    ensures
        player.finished_at(now, drained) == drained,
{
}

/// Stopping twice is the same as stopping once: the controller is stopped
/// and its clock reads zero at any time.
pub proof fn stopping_twice_is_stopping_once(player: PlayerView, now: u64)
    ensures
        player.stopped().stopped() == player.stopped(),
        player.stopped().state() is Stopped,
        player.stopped().elapsed_at(now) == 0,
{
}

} // verus!
