//! A stopwatch for the current track that survives pause and resume.

use vstd::prelude::*;

verus! {

/// Nanoseconds from `start` to `now`, or zero when `now` lies before `start`.
pub open spec fn span_between(start: u64, now: u64) -> nat {
    if now >= start {
        (now - start) as nat
    } else {
        0
    }
}

/// What a clock stands for: the timestamp at which the running stretch began,
/// if one is running, and the total length of the stretches that have ended.
pub struct ClockModel {
    pub session_start: Option<u64>,
    pub accumulated: nat,
}

impl ClockModel {
    /// Whether a stretch is running.
    pub open spec fn running(self) -> bool {
        self.session_start.is_some()
    }

    /// The length of the running stretch as of `now`; zero when none runs.
    pub open spec fn live(self, now: u64) -> nat {
        match self.session_start {
            Some(start) => span_between(start, now),
            None => 0,
        }
    }

    /// Total elapsed playing time as of `now`.
    pub open spec fn elapsed_at(self, now: u64) -> nat {
        self.accumulated + self.live(now)
    }

    /// The clock after a stretch begins at `now`.
    pub open spec fn start(self, now: u64) -> ClockModel {
        ClockModel { session_start: Some(now), accumulated: self.accumulated }
    }

    /// The clock after the running stretch, if any, ends at `now`.
    pub open spec fn pause(self, now: u64) -> ClockModel {
        ClockModel { session_start: None, accumulated: self.elapsed_at(now) }
    }

    /// The clock at zero with no stretch running.
    pub open spec fn zero() -> ClockModel {
        ClockModel { session_start: None, accumulated: 0 }
    }

    /// The clock after one operation.
    pub open spec fn apply(self, op: ClockOp) -> ClockModel {
        match op {
            ClockOp::Start(now) => self.start(now),
            ClockOp::Pause(now) => self.pause(now),
        }
    }

    /// The clock after a sequence of operations, first to last.
    pub open spec fn run(self, ops: Seq<ClockOp>) -> ClockModel
        decreases ops.len(),
    {
        if ops.len() == 0 {
            self
        } else {
            self.apply(ops[0]).run(ops.drop_first())
        }
    }

    /// Whether every `Start` in `ops` finds no stretch running.
    pub open spec fn starts_when_idle(self, ops: Seq<ClockOp>) -> bool
        decreases ops.len(),
    {
        if ops.len() == 0 {
            true
        } else {
            &&& ops[0] is Start ==> !self.running()
            &&& self.apply(ops[0]).starts_when_idle(ops.drop_first())
        }
    }
}

/// One operation on a clock, with the timestamp at which it happens.
pub enum ClockOp {
    Start(u64),
    Pause(u64),
}

impl ClockOp {
    /// The timestamp of the operation.
    pub open spec fn at(self) -> u64 {
        match self {
            ClockOp::Start(now) => now,
            ClockOp::Pause(now) => now,
        }
    }
}

/// Whether the timestamps of `ops` never run backwards and all lie between
/// `from` and `to`.
pub open spec fn chronological(ops: Seq<ClockOp>, from: u64, to: u64) -> bool
    decreases ops.len(),
{
    if ops.len() == 0 {
        from <= to
    } else {
        from <= ops[0].at() && chronological(ops.drop_first(), ops[0].at(), to)
    }
}

/// Elapsed playing time of one track, in nanoseconds.
#[derive(Clone, Copy, Debug)]
pub struct PlaybackClock {
    session_start: Option<u64>,
    accumulated: u64,
}

impl View for PlaybackClock {
    type V = ClockModel;

    closed spec fn view(&self) -> ClockModel {
        ClockModel { session_start: self.session_start, accumulated: self.accumulated as nat }
    }
}

impl PlaybackClock {
    /// Whether the elapsed time as of `now` can be held in a `u64`.
    pub open spec fn fits(&self, now: u64) -> bool {
        self@.elapsed_at(now) <= u64::MAX
    }

    /// A clock at zero with no stretch running.
    pub fn new() -> (clock: PlaybackClock)
        ensures
            clock@ == ClockModel::zero(),
    {
        PlaybackClock { session_start: None, accumulated: 0 }
    }

    /// Whether a stretch is running.
    pub fn is_running(&self) -> (running: bool)
        ensures
            running == self@.running(),
    {
        self.session_start.is_some()
    }

    /// Whether the elapsed time as of `now` can be held in a `u64`, which
    /// `elapsed` and `pause` ask of their callers.
    pub fn can_measure(&self, now: u64) -> (ok: bool)
        ensures
            ok == self.fits(now),
    {
        match self.session_start {
            Some(start) => now < start || now - start <= u64::MAX - self.accumulated,
            None => true,
        }
    }

    /// Begins a stretch at `now`. No stretch may be running: a second start
    /// would lose what the first one has measured.
    pub fn start(&mut self, now: u64)
        requires
            !old(self)@.running(),
        ensures
            final(self)@ == old(self)@.start(now),
    {
        self.session_start = Some(now);
    }

    /// Ends the running stretch at `now` and adds its length to the total.
    /// Leaves the total as it is when no stretch is running.
    pub fn pause(&mut self, now: u64)
        requires
            old(self).fits(now),
        ensures
            final(self)@ == old(self)@.pause(now),
    {
        if let Some(start) = self.session_start {
            if now >= start {
                self.accumulated = self.accumulated + (now - start);
            }
        }
        self.session_start = None;
    }

    /// Returns the clock to zero with no stretch running.
    pub fn reset(&mut self)
        ensures
            final(self)@ == ClockModel::zero(),
    {
        self.session_start = None;
        self.accumulated = 0;
    }

    /// Total elapsed playing time as of `now`, in a width that holds it
    /// whatever the clock has banked. The clock is left as it is.
    pub fn elapsed_wide(&self, now: u64) -> (total: u128)
        ensures
            total == self@.elapsed_at(now),
    {
        let live: u64 = match self.session_start {
            Some(start) => if now >= start {
                now - start
            } else {
                0
            },
            None => 0,
        };
        self.accumulated as u128 + live as u128
    }

    /// Total elapsed playing time as of `now`. The clock is left as it is.
    pub fn elapsed(&self, now: u64) -> (total: u64)
        requires
            self.fits(now),
        ensures
            total == self@.elapsed_at(now),
    {
        match self.session_start {
            Some(start) => {
                if now >= start {
                    self.accumulated + (now - start)
                } else {
                    self.accumulated
                }
            },
            None => self.accumulated,
        }
    }
}

/// A clock that is left alone never reads less at a later time.
pub proof fn elapsed_grows_with_time(clock: ClockModel, earlier: u64, later: u64)
    requires
        earlier <= later,
    ensures
        clock.elapsed_at(earlier) <= clock.elapsed_at(later),
{
}

/// Elapsed time never decreases. Take any sequence of starts and pauses in
/// which each start finds no stretch running and the timestamps never run
/// backwards: what the clock reads at `before`, ahead of the first operation,
/// is at most what it reads at `after`, once the last one is done.
pub proof fn elapsed_never_decreases(clock: ClockModel, ops: Seq<ClockOp>, before: u64, after: u64)
    requires
        clock.starts_when_idle(ops),
        chronological(ops, before, after),
    ensures
        clock.elapsed_at(before) <= clock.run(ops).elapsed_at(after),
    decreases ops.len(),
{
    if ops.len() > 0 {
        let next = clock.apply(ops[0]);
        assert(clock.elapsed_at(before) <= next.elapsed_at(ops[0].at()));
        elapsed_never_decreases(next, ops.drop_first(), ops[0].at(), after);
    }
}

/// Starting and pausing move time between the running stretch and the total
/// without changing what the clock reads at that instant.
pub proof fn operations_keep_the_reading(clock: ClockModel, op: ClockOp)
    requires
        op is Start ==> !clock.running(),
    ensures
        clock.apply(op).elapsed_at(op.at()) == clock.elapsed_at(op.at()),
{
}

} // verus!
