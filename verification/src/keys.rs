//! The track list's selection, and what each key means.

use crate::control::{command_outcome, Command, OutputAction};
use crate::player::{accepts_all, MusicPlayer, PlayerError};
use crate::track::Track;
use vstd::prelude::*;

verus! {

/// A key press, as far as the player tells keys apart.
#[derive(Clone, Copy, Debug, PartialEq, Eq, Structural)]
pub enum Key {
    Char(char),
    Esc,
    Up,
    Down,
    Enter,
    Other,
}

/// What a key press asks for.
#[derive(Clone, Copy, Debug, PartialEq, Eq, Structural)]
pub enum Intent {
    /// Leave the program.
    Quit,
    /// Nothing of the controller: the key moved the selection, toggled the
    /// help, or has no meaning.
    Nothing,
    /// Carry out this command.
    Run(Command),
}

/// What handling a key press came to.
#[derive(Debug)]
pub enum KeyOutcome<S> {
    /// Leave the program.
    Quit,
    /// Go on, after telling the output this.
    Continue(OutputAction<S>),
}

/// The selection one row down, the first row following the last; the first
/// row where nothing was selected.
pub open spec fn selection_below(selected: Option<usize>, len: nat) -> usize {
    match selected {
        Some(i) => if i + 1 >= len {
            0
        } else {
            (i + 1) as usize
        },
        None => 0,
    }
}

/// The selection one row up, the last row preceding the first; the first
/// row where nothing was selected.
pub open spec fn selection_above(selected: Option<usize>, len: nat) -> usize {
    match selected {
        Some(i) => if i > 0 {
            (i - 1) as usize
        } else if len > 0 {
            (len - 1) as usize
        } else {
            0
        },
        None => 0,
    }
}

/// Whether the key moves the selection down.
pub open spec fn moves_down(key: Key) -> bool {
    key == Key::Down || key == Key::Char('j')
}

/// Whether the key moves the selection up.
pub open spec fn moves_up(key: Key) -> bool {
    key == Key::Up || key == Key::Char('k')
}

/// Whether the key shows or hides the help.
pub open spec fn toggles_help(key: Key) -> bool {
    key == Key::Char('?') || key == Key::Char('h')
}

/// What `key` asks for when `selected` is the selected row and `current`
/// the position of the current track.
///
/// `q` and escape quit. Space plays the selected track if it is not the
/// current one and toggles pause otherwise; enter plays the selected
/// track. `n` and `p` step to the next and the previous track, `s` toggles
/// shuffle, `r` cycles the repeat mode, `S` stops.
pub open spec fn intent_of(key: Key, selected: Option<usize>, current: int) -> Intent {
    match key {
        Key::Esc => Intent::Quit,
        Key::Enter => match selected {
            Some(row) => Intent::Run(Command::Select(row)),
            None => Intent::Nothing,
        },
        Key::Char(c) => if c == 'q' {
            Intent::Quit
        } else if c == ' ' {
            match selected {
                Some(row) => if row != current {
                    Intent::Run(Command::Select(row))
                } else {
                    Intent::Run(Command::TogglePause)
                },
                None => Intent::Run(Command::TogglePause),
            }
        } else if c == 'n' {
            Intent::Run(Command::Next)
        } else if c == 'p' {
            Intent::Run(Command::Previous)
        } else if c == 's' {
            Intent::Run(Command::ToggleShuffle)
        } else if c == 'r' {
            Intent::Run(Command::CycleRepeat)
        } else if c == 'S' {
            Intent::Run(Command::Stop)
        } else {
            Intent::Nothing
        },
        _ => Intent::Nothing,
    }
}

/// The selected row after `key`, apart from what a command does to it.
pub open spec fn selection_after(key: Key, selected: Option<usize>, len: nat) -> Option<usize> {
    if moves_down(key) {
        Some(selection_below(selected, len))
    } else if moves_up(key) {
        Some(selection_above(selected, len))
    } else {
        selected
    }
}

/// A controller together with the state of the screen: which row of the
/// track list is selected, and whether the help is shown.
pub struct App {
    pub player: MusicPlayer,
    pub selected: Option<usize>,
    pub show_help: bool,
}

impl App {
    /// The controller keeps its rules, and a selected row lies in the
    /// catalog unless the catalog is empty.
    pub open spec fn wf(&self) -> bool {
        &&& self.player@.wf()
        &&& match self.selected {
            Some(row) => self.player@.tracks.len() > 0 ==> row < self.player@.tracks.len(),
            None => true,
        }
    }

    /// The screen for `player`: the first row is selected if there is one,
    /// and the help is hidden.
    pub fn new(player: MusicPlayer) -> (app: App)
        requires
            player@.wf(),
        ensures
            app.wf(),
            app.player@ == player@,
            app.selected == if player@.tracks.len() > 0 {
                Some(0usize)
            } else {
                None
            },
            !app.show_help,
    {
        let selected: Option<usize> = if player.track_count() > 0 {
            Some(0)
        } else {
            None
        };
        App { player, selected, show_help: false }
    }

    /// Moves the selection one row down and makes that track current,
    /// without touching playback. With an empty catalog only the selection
    /// moves.
    pub fn next_track(&mut self)
        requires
            old(self).wf(),
        ensures
            final(self).wf(),
            final(self).selected == Some(
                selection_below(old(self).selected, old(self).player@.tracks.len()),
            ),
            final(self).player@ == if old(self).player@.tracks.len() > 0 {
                old(self).player@.at_index(final(self).selected->Some_0 as int)
            } else {
                old(self).player@
            },
            final(self).show_help == old(self).show_help,
    {
        let row: usize = self.row_below();
        self.selected = Some(row);
        if self.player.track_count() > 0 {
            self.player.cue(row);
        }
    }

    /// Moves the selection one row up and makes that track current, without
    /// touching playback. With an empty catalog only the selection moves.
    pub fn previous_track(&mut self)
        requires
            old(self).wf(),
        ensures
            final(self).wf(),
            final(self).selected == Some(
                selection_above(old(self).selected, old(self).player@.tracks.len()),
            ),
            final(self).player@ == if old(self).player@.tracks.len() > 0 {
                old(self).player@.at_index(final(self).selected->Some_0 as int)
            } else {
                old(self).player@
            },
            final(self).show_help == old(self).show_help,
    {
        let row: usize = self.row_above();
        self.selected = Some(row);
        if self.player.track_count() > 0 {
            self.player.cue(row);
        }
    }

    /// Shows the help if it is hidden, and hides it if it is shown.
    pub fn toggle_help(&mut self)
        ensures
            final(self).show_help == !old(self).show_help,
            final(self).selected == old(self).selected,
            final(self).player@ == old(self).player@,
    {
        self.show_help = !self.show_help;
    }

    /// The row below the selected one.
    fn row_below(&self) -> (row: usize)
        requires
            self.wf(),
        ensures
            row == selection_below(self.selected, self.player@.tracks.len()),
    {
        let len: usize = self.player.track_count();
        match self.selected {
            Some(i) => if i >= len || i + 1 >= len {
                0
            } else {
                i + 1
            },
            None => 0,
        }
    }

    /// The row above the selected one.
    fn row_above(&self) -> (row: usize)
        requires
            self.wf(),
        ensures
            row == selection_above(self.selected, self.player@.tracks.len()),
    {
        let len: usize = self.player.track_count();
        match self.selected {
            Some(i) => if i > 0 {
                i - 1
            } else if len > 0 {
                len - 1
            } else {
                0
            },
            None => 0,
        }
    }

    /// Takes in a key press: moves the selection or toggles the help where
    /// the key asks for that, and says what it asks of the controller.
    pub fn interpret(&mut self, key: Key) -> (intent: Intent)
        requires
            old(self).wf(),
        ensures
            final(self).wf(),
            intent == intent_of(key, old(self).selected, old(self).player@.current_index),
            final(self).player@ == old(self).player@,
            final(self).selected == selection_after(
                key,
                old(self).selected,
                old(self).player@.tracks.len(),
            ),
            final(self).show_help == (old(self).show_help != toggles_help(key)),
    {
        match key {
            Key::Esc => Intent::Quit,
            Key::Down => {
                self.selected = Some(self.row_below());
                Intent::Nothing
            },
            Key::Up => {
                self.selected = Some(self.row_above());
                Intent::Nothing
            },
            Key::Enter => match self.selected {
                Some(row) => Intent::Run(Command::Select(row)),
                None => Intent::Nothing,
            },
            Key::Char(c) => {
                if c == 'q' {
                    Intent::Quit
                } else if c == 'j' {
                    self.selected = Some(self.row_below());
                    Intent::Nothing
                } else if c == 'k' {
                    self.selected = Some(self.row_above());
                    Intent::Nothing
                } else if c == ' ' {
                    match self.selected {
                        Some(row) => if row != self.player.current_index() {
                            Intent::Run(Command::Select(row))
                        } else {
                            Intent::Run(Command::TogglePause)
                        },
                        None => Intent::Run(Command::TogglePause),
                    }
                } else if c == 'n' {
                    Intent::Run(Command::Next)
                } else if c == 'p' {
                    Intent::Run(Command::Previous)
                } else if c == 's' {
                    Intent::Run(Command::ToggleShuffle)
                } else if c == 'r' {
                    Intent::Run(Command::CycleRepeat)
                } else if c == 'S' {
                    Intent::Run(Command::Stop)
                } else if c == '?' || c == 'h' {
                    self.show_help = !self.show_help;
                    Intent::Nothing
                } else {
                    Intent::Nothing
                }
            },
            Key::Other => Intent::Nothing,
        }
    }

    /// The periodic check: where the current track has finished and playback
    /// is not paused, the controller moves on as its repeat mode asks, and
    /// the selection follows the current track. Otherwise nothing happens.
    /// `drained` is what the output reports: that it has nothing left to
    /// play.
    pub fn tick<S, D: Fn(&Track) -> Option<S>>(
        &mut self,
        now: u64,
        drained: bool,
        decode: D,
    ) -> (result: Option<Result<OutputAction<S>, PlayerError>>)
        requires
            old(self).wf(),
            accepts_all(decode, old(self).player@.tracks),
        ensures
            final(self).wf(),
            final(self).show_help == old(self).show_help,
            match result {
                Some(moved) => {
                    &&& old(self).player.due_at(now, drained)
                    &&& command_outcome(
                        old(self).player@,
                        old(self).player.command_when_finished(),
                        now,
                        decode,
                        final(self).player@,
                        moved,
                    )
                    &&& final(self).selected == Some(final(self).player@.current_index as usize)
                },
                None => {
                    &&& !old(self).player.due_at(now, drained)
                    &&& final(self).player@ == old(self).player@
                    &&& final(self).selected == old(self).selected
                },
            },
    {
        let moved = self.player.advance_if_finished(now, drained, decode);
        if moved.is_some() {
            self.follow_current();
        }
        moved
    }

    /// Puts the selection on the current track.
    pub fn follow_current(&mut self)
        requires
            old(self).wf(),
        ensures
            final(self).wf(),
            final(self).selected == Some(old(self).player@.current_index as usize),
            final(self).player@ == old(self).player@,
            final(self).show_help == old(self).show_help,
    {
        self.selected = Some(self.player.current_index());
    }
}

/// Whether the selection follows the current track after `command`.
pub open spec fn selection_follows(command: Command) -> bool {
    command is Next || command is Previous
}

/// Handles one key press at `now`: interprets it, carries out the command
/// that it asks for, and says whether to quit and what to tell the output.
/// After a step to the next or the previous track the selection follows the
/// current track. Where playback was to start and no track decodes, the
/// result is `NoPlayableTrack` and the output is to be halted.
pub fn handle_key_event<S, D: Fn(&Track) -> Option<S>>(
    key: Key,
    app: &mut App,
    now: u64,
    decode: D,
) -> (result: Result<KeyOutcome<S>, PlayerError>)
    requires
        old(app).wf(),
        accepts_all(decode, old(app).player@.tracks),
        match intent_of(key, old(app).selected, old(app).player@.current_index) {
            Intent::Run(command) => command.admissible(old(app).player@, now),
            _ => true,
        },
    ensures
        final(app).wf(),
        final(app).show_help == (old(app).show_help != toggles_help(key)),
        match intent_of(key, old(app).selected, old(app).player@.current_index) {
            Intent::Quit => {
                &&& result matches Ok(KeyOutcome::Quit)
                &&& final(app).player@ == old(app).player@
                &&& final(app).selected == old(app).selected
            },
            Intent::Nothing => {
                &&& result matches Ok(KeyOutcome::Continue(OutputAction::Keep))
                &&& final(app).player@ == old(app).player@
                &&& final(app).selected == selection_after(
                    key,
                    old(app).selected,
                    old(app).player@.tracks.len(),
                )
            },
            Intent::Run(command) => {
                &&& match result {
                    Ok(KeyOutcome::Continue(action)) => {
                        &&& command_outcome(
                            old(app).player@,
                            command,
                            now,
                            decode,
                            final(app).player@,
                            Ok(action),
                        )
                        &&& final(app).selected == if selection_follows(command) {
                            Some(final(app).player@.current_index as usize)
                        } else {
                            old(app).selected
                        }
                    },
                    Ok(KeyOutcome::Quit) => false,
                    Err(e) => {
                        &&& command_outcome(
                            old(app).player@,
                            command,
                            now,
                            decode,
                            final(app).player@,
                            Err::<OutputAction<S>, PlayerError>(e),
                        )
                        &&& final(app).selected == old(app).selected
                    },
                }
            },
        },
{
    match app.interpret(key) {
        Intent::Quit => Ok(KeyOutcome::Quit),
        Intent::Nothing => Ok(KeyOutcome::Continue(OutputAction::Keep)),
        Intent::Run(command) => {
            match app.player.execute(command, now, decode) {
                Ok(action) => {
                    match command {
                        Command::Next | Command::Previous => {
                            app.follow_current();
                        },
                        _ => {},
                    }
                    Ok(KeyOutcome::Continue(action))
                },
                Err(e) => Err(e),
            }
        },
    }
}

} // verus!
