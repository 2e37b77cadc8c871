//! Commands to the controller, and what each one asks of the audio output.

use crate::player::{
    accepts_all, index_after, index_before, play_outcome, MusicPlayer, PlayState, PlayerError,
    PlayerView, RepeatMode,
};
use crate::track::Track;
use vstd::prelude::*;

verus! {

/// What the controller can be told to do.
#[derive(Clone, Copy, Debug, PartialEq, Eq, Structural)]
pub enum Command {
    /// Play the track at this position.
    Select(usize),
    /// Play the track after the current one.
    Next,
    /// Play the track before the current one.
    Previous,
    /// Pause if playing, resume if paused.
    TogglePause,
    /// Stop playback.
    Stop,
    /// Turn shuffle on or off.
    ToggleShuffle,
    /// Move the repeat mode on by one.
    CycleRepeat,
}

/// What the audio output must be told after a command.
#[derive(Debug)]
pub enum OutputAction<S> {
    /// Nothing.
    Keep,
    /// Hold the stream that is playing.
    Pause,
    /// Go on with the stream that was held.
    Resume,
    /// Drop whatever is queued.
    Halt,
    /// Drop whatever is queued and play this stream.
    Replace(S),
}

impl Command {
    /// Where the search for a playable track begins when this command
    /// starts playback; nothing for a command that does not.
    pub open spec fn target(self, player: PlayerView) -> Option<int> {
        match self {
            Command::Select(index) => Some(index as int),
            Command::Next => Some(index_after(player.current_index, player.tracks.len() as int)),
            Command::Previous => Some(
                index_before(player.current_index, player.tracks.len() as int),
            ),
            _ => None,
        }
    }

    /// Whether the controller `player` can carry this command out at `now`:
    /// a position to select lies in the catalog, and a clock that is to be
    /// paused can be read.
    pub open spec fn admissible(self, player: PlayerView, now: u64) -> bool {
        match self {
            Command::Select(index) => player.tracks.len() > 0 ==> index < player.tracks.len(),
            Command::TogglePause => player.state() is Playing ==> player.elapsed_at(now)
                <= u64::MAX,
            _ => true,
        }
    }
}

/// What an attempt to play hands back, read from what the output is told.
pub open spec fn as_play_result<S>(result: Result<OutputAction<S>, PlayerError>) -> Option<
    Result<Option<S>, PlayerError>,
> {
    match result {
        Ok(OutputAction::Replace(stream)) => Some(Ok(Some(stream))),
        Ok(OutputAction::Keep) => Some(Ok(None)),
        Ok(_) => None,
        Err(e) => Some(Err(e)),
    }
}

/// What carrying out `command` at `now` makes of the controller `before`,
/// and what the output is told.
///
/// A command that starts playback leaves the controller as the attempt to
/// play leaves it; the output gets the new stream, or is left alone where
/// the catalog is empty. Pausing and resuming tell the output to do the
/// same, stopping tells it to halt, and the modes are no concern of the
/// output.
pub open spec fn command_outcome<S, D: Fn(&Track) -> Option<S>>(
    before: PlayerView,
    command: Command,
    now: u64,
    decode: D,
    after: PlayerView,
    result: Result<OutputAction<S>, PlayerError>,
) -> bool {
    match command {
        Command::Select(_) | Command::Next | Command::Previous => match as_play_result(result) {
            Some(played) => play_outcome(
                before,
                command.target(before)->Some_0,
                now,
                decode,
                after,
                played,
            ),
            None => false,
        },
        Command::TogglePause => {
            &&& after == before.pause_toggled(now)
            &&& match before.state() {
                PlayState::Playing => result matches Ok(OutputAction::Pause),
                PlayState::Paused => result matches Ok(OutputAction::Resume),
                PlayState::Stopped => result matches Ok(OutputAction::Keep),
            }
        },
        Command::Stop => {
            &&& after == before.stopped()
            &&& result matches Ok(OutputAction::Halt)
        },
        Command::ToggleShuffle => {
            &&& after == (PlayerView { shuffled: !before.shuffled, ..before })
            &&& result matches Ok(OutputAction::Keep)
        },
        Command::CycleRepeat => {
            &&& after == (PlayerView { repeat_mode: before.repeat_mode.successor(), ..before })
            &&& result matches Ok(OutputAction::Keep)
        },
    }
}

/// What the output is told after an attempt to play.
fn output_action_for<S>(played: Result<Option<S>, PlayerError>) -> (result: Result<
    OutputAction<S>,
    PlayerError,
>)
    ensures
        as_play_result(result) == Some(played),
{
    match played {
        Ok(Some(stream)) => Ok(OutputAction::Replace(stream)),
        Ok(None) => Ok(OutputAction::Keep),
        Err(e) => Err(e),
    }
}

impl MusicPlayer {
    /// Carries out `command` at `now` and says what the output must be
    /// told. Where playback was to start and no track decodes, the command
    /// fails with `NoPlayableTrack` and the output is to be halted.
    pub fn execute<S, D: Fn(&Track) -> Option<S>>(
        &mut self,
        command: Command,
        now: u64,
        decode: D,
    ) -> (result: Result<OutputAction<S>, PlayerError>)
        requires
            old(self)@.wf(),
            command.admissible(old(self)@, now),
            accepts_all(decode, old(self)@.tracks),
        ensures
            final(self)@.wf(),
            command_outcome(old(self)@, command, now, decode, final(self)@, result),
    {
        match command {
            Command::Select(index) => output_action_for(self.select(index, now, decode)),
            Command::Next => output_action_for(self.next_track(now, decode)),
            Command::Previous => output_action_for(self.previous_track(now, decode)),
            Command::TogglePause => {
                let before = self.state();
                self.toggle_pause(now);
                match before {
                    PlayState::Playing => Ok(OutputAction::Pause),
                    PlayState::Paused => Ok(OutputAction::Resume),
                    PlayState::Stopped => Ok(OutputAction::Keep),
                }
            },
            Command::Stop => {
                self.stop();
                Ok(OutputAction::Halt)
            },
            Command::ToggleShuffle => {
                self.toggle_shuffle();
                Ok(OutputAction::Keep)
            },
            Command::CycleRepeat => {
                self.cycle_repeat();
                Ok(OutputAction::Keep)
            },
        }
    }

    /// Whether it is time to move on by itself at `now`: the current track
    /// has finished and playback is not paused.
    pub open spec fn due_at(&self, now: u64, drained: bool) -> bool {
        self@.finished_at(now, drained) && !self@.paused
    }

    /// What follows a track that has played to its end: under repeat mode
    /// `One` the same track again, under `Off` and `All` the next one.
    pub open spec fn command_when_finished(&self) -> Command {
        match self@.repeat_mode {
            RepeatMode::One => Command::Select(self@.current_index as usize),
            _ => Command::Next,
        }
    }

    /// Where the current track has finished and playback is not paused,
    /// carries out what the repeat mode asks for, the same track again or
    /// the next one, and says what the output must be told. Otherwise
    /// nothing happens. `drained` is what the output reports, as for
    /// `is_track_finished`.
    pub fn advance_if_finished<S, D: Fn(&Track) -> Option<S>>(
        &mut self,
        now: u64,
        drained: bool,
        decode: D,
    ) -> (result: Option<Result<OutputAction<S>, PlayerError>>)
        requires
            old(self)@.wf(),
            accepts_all(decode, old(self)@.tracks),
        ensures
            final(self)@.wf(),
            match result {
                Some(moved) => old(self).due_at(now, drained) && command_outcome(
                    old(self)@,
                    old(self).command_when_finished(),
                    now,
                    decode,
                    final(self)@,
                    moved,
                ),
                None => !old(self).due_at(now, drained) && final(self)@ == old(self)@,
            },
    {
        if self.is_track_finished(now, drained) && !self.is_paused() {
            let command = match self.repeat_mode() {
                RepeatMode::One => Command::Select(self.current_index()),
                _ => Command::Next,
            };
            Some(self.execute(command, now, decode))
        } else {
            None
        }
    }
}

} // verus!
