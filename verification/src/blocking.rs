//! The scheduler that owns its thread: wait, play to the end, repeat.

use crate::sampler::{Interval, WaitRange};
use crate::time::TimeSpan;
use vstd::prelude::*;

verus! {

/// Where the scheduler stands in its cycle.
#[derive(Clone, Copy, Debug, PartialEq, Eq, Structural)]
pub enum Phase {
    /// Nothing has happened yet.
    Idle,
    /// The thread sleeps through a drawn wait.
    Waiting,
    /// The clip is queued and the thread blocks until it has played.
    Playing,
    /// The single playback is over; nothing more will happen.
    Terminated,
}

/// Whether the clip repeats.
#[derive(Clone, Copy, Debug, PartialEq, Eq, Structural)]
pub enum Mode {
    /// Wait and play, over and over, for as long as the process lives.
    Repeat,
    /// Play once, at once, and stop.
    Once,
}

/// What the owner of the thread does next. Each action blocks until it is
/// done, and the scheduler is then asked again.
#[derive(Clone, Copy, Debug, PartialEq, Eq, Structural)]
pub enum Action {
    /// Sleep for exactly this long.
    Sleep(TimeSpan),
    /// Queue a fresh duplicate of the stream and block until it has played.
    Play,
    /// Return: the run is over.
    Exit,
}

/// The phase that follows `phase` once its action is done.
pub open spec fn next_phase(mode: Mode, phase: Phase) -> Phase {
    match (phase, mode) {
        (Phase::Idle, Mode::Repeat) => Phase::Waiting,
        (Phase::Idle, Mode::Once) => Phase::Playing,
        (Phase::Waiting, _) => Phase::Playing,
        (Phase::Playing, Mode::Repeat) => Phase::Waiting,
        (Phase::Playing, Mode::Once) => Phase::Terminated,
        (Phase::Terminated, _) => Phase::Terminated,
    }
}

/// The action that belongs to a phase that has been entered, `wait` being
/// the sleep of a wait. No step enters the idle phase.
pub open spec fn action_of(phase: Phase, wait: TimeSpan) -> Action {
    match phase {
        Phase::Waiting => Action::Sleep(wait),
        Phase::Playing => Action::Play,
        Phase::Idle | Phase::Terminated => Action::Exit,
    }
}

/// The phase reached from `phase` after `steps` actions.
pub open spec fn phase_after(mode: Mode, phase: Phase, steps: nat) -> Phase
    decreases steps,
{
    if steps == 0 {
        phase
    } else {
        next_phase(mode, phase_after(mode, phase, (steps - 1) as nat))
    }
}

/// A repeating scheduler never stops: from idle it waits after every odd
/// number of steps and plays after every even one.
pub proof fn lemma_repeat_never_terminates(steps: nat)
    requires
        steps > 0,
    ensures
        phase_after(Mode::Repeat, Phase::Idle, steps) == if steps % 2 == 1 {
            Phase::Waiting
        } else {
            Phase::Playing
        },
        phase_after(Mode::Repeat, Phase::Idle, steps) != Phase::Terminated,
    decreases steps,
{
    if steps > 1 {
        lemma_repeat_never_terminates((steps - 1) as nat);
    } else {
        assert(phase_after(Mode::Repeat, Phase::Idle, 0) == Phase::Idle);
    }
}

/// A single-shot scheduler plays at its first step, without a wait, and is
/// over from the second step on.
pub proof fn lemma_once_plays_once(steps: nat)
    requires
        steps > 0,
    ensures
        phase_after(Mode::Once, Phase::Idle, steps) == if steps == 1 {
            Phase::Playing
        } else {
            Phase::Terminated
        },
    decreases steps,
{
    if steps > 1 {
        lemma_once_plays_once((steps - 1) as nat);
    } else {
        assert(phase_after(Mode::Once, Phase::Idle, 0) == Phase::Idle);
    }
}

/// Moves one step on: the phase that follows `phase`, and the action to
/// carry out in it. `wait` is the sleep to use should a wait begin.
pub fn step(mode: Mode, phase: Phase, wait: TimeSpan) -> (r: (Phase, Action))
    ensures
        r.0 == next_phase(mode, phase),
        r.1 == action_of(r.0, wait),
{
    match (phase, mode) {
        (Phase::Idle, Mode::Repeat) => (Phase::Waiting, Action::Sleep(wait)),
        (Phase::Idle, Mode::Once) => (Phase::Playing, Action::Play),
        (Phase::Waiting, _) => (Phase::Playing, Action::Play),
        (Phase::Playing, Mode::Repeat) => (Phase::Waiting, Action::Sleep(wait)),
        (Phase::Playing, Mode::Once) => (Phase::Terminated, Action::Exit),
        (Phase::Terminated, _) => (Phase::Terminated, Action::Exit),
    }
}

/// Whether the step out of `phase` begins a wait.
pub fn begins_wait(mode: Mode, phase: Phase) -> (r: bool)
    ensures
        r == (next_phase(mode, phase) == Phase::Waiting),
{
    match (phase, mode) {
        (Phase::Idle, Mode::Repeat) => true,
        (Phase::Playing, Mode::Repeat) => true,
        _ => false,
    }
}

/// The state of a blocking scheduler as plain values.
pub struct BlockingState {
    pub mode: Mode,
    pub range: Interval,
    pub phase: Phase,
}

/// A scheduler for one clip that owns the thread it runs on.
#[derive(Debug)]
pub struct BlockingScheduler {
    mode: Mode,
    range: WaitRange,
    phase: Phase,
}

impl View for BlockingScheduler {
    type V = BlockingState;

    closed spec fn view(&self) -> BlockingState {
        BlockingState { mode: self.mode, range: self.range@, phase: self.phase }
    }
}

impl BlockingScheduler {
    /// An idle scheduler that draws its waits from `range`.
    pub fn new(mode: Mode, range: WaitRange) -> (r: BlockingScheduler)
        ensures
            r@ == (BlockingState { mode, range: range@, phase: Phase::Idle }),
    {
        BlockingScheduler { mode, range, phase: Phase::Idle }
    }

    /// Where the scheduler stands.
    pub fn phase(&self) -> (r: Phase)
        ensures
            r == self@.phase,
    {
        self.phase
    }

    /// Moves one step on and says what to do. Call it once to start, and
    /// again each time the action it gave is done.
    ///
    /// The phase moves as [`next_phase`] says. A sleep lasts for a wait
    /// freshly drawn from the range; nothing is drawn where no wait begins.
    pub fn advance(&mut self) -> (action: Action)
        ensures
            final(self)@ == (BlockingState {
                phase: next_phase(old(self)@.mode, old(self)@.phase),
                ..old(self)@
            }),
            match action {
                Action::Sleep(wait) => final(self)@.phase == Phase::Waiting && old(
                    self,
                )@.range.contains(wait@),
                Action::Play => final(self)@.phase == Phase::Playing,
                Action::Exit => final(self)@.phase == Phase::Terminated,
            },
    {
        let wait = if begins_wait(self.mode, self.phase) {
            self.range.next_wait()
        } else {
            self.range.min()
        };
        let (phase, action) = step(self.mode, self.phase, wait);
        self.phase = phase;
        action
    }
}

} // verus!
