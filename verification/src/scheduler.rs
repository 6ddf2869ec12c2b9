//! The refresh scheduler: a fixed-cadence tick loop with an explicit tick
//! counter and pure decision predicates.
//!
//! Every tick the loop polls for input for a bounded duration and sleeps
//! for the tick duration; every `REFRESH_INTERVAL_TICKS`-th tick it also
//! refreshes the snapshot and re-renders. An exit key moves the scheduler
//! to its terminal `Shutdown` phase. The loop itself, the sleep and the
//! poll live outside the library; only the decisions are made here.

use vstd::prelude::*;

verus! {

/// Length of one tick, in milliseconds.
pub const TICK_MILLIS: u64 = 10;

/// Upper bound on one input poll, in milliseconds.
pub const POLL_MILLIS: u64 = 100;

/// A refresh-and-render happens every this many ticks.
pub const REFRESH_INTERVAL_TICKS: u64 = 10;

/// A keyboard event as the scheduler sees it.
#[derive(Clone, Copy, Debug, PartialEq, Eq, Structural)]
pub enum KeyPress {
    /// A printable character key.
    Character(char),
    /// The escape (cancel) key.
    Escape,
    /// Any other key.
    Other,
}

/// The scheduler's phase within the current tick.
#[derive(Clone, Copy, Debug, PartialEq, Eq, Structural)]
pub enum Phase {
    /// Waiting for the next tick boundary.
    Idle,
    /// Refreshing the snapshot and re-rendering this tick.
    Rendering,
    /// An exit key was seen; the loop must end.
    Shutdown,
}

/// Whether the tick with this counter value refreshes and re-renders.
pub open spec fn spec_should_refresh(tick: u64) -> bool {
    tick % REFRESH_INTERVAL_TICKS == 0
}

/// Decide whether a tick refreshes and re-renders: true exactly on every
/// `REFRESH_INTERVAL_TICKS`-th tick, starting with the first.
pub fn should_refresh(tick: u64) -> (render: bool)
    ensures
        render == spec_should_refresh(tick),
{
    tick % REFRESH_INTERVAL_TICKS == 0
}

/// Whether a key ends the loop: `q` or the escape key.
pub open spec fn spec_is_exit_key(key: KeyPress) -> bool {
    key == KeyPress::Character('q') || key == KeyPress::Escape
}

/// Recognize the exit keys: the character `q` and the escape key.
pub fn is_exit_key(key: &KeyPress) -> (exit: bool)
    ensures
        exit == spec_is_exit_key(*key),
{
    match key {
        KeyPress::Character(c) => *c == 'q',
        KeyPress::Escape => true,
        KeyPress::Other => false,
    }
}

/// The tick-loop state: a counter and the current phase.
pub struct Scheduler {
    pub tick: u64,
    pub phase: Phase,
}

impl Scheduler {
    /// A fresh scheduler at tick zero, idle. The first tick renders.
    pub fn new() -> (s: Scheduler)
        ensures
            s.tick == 0,
            s.phase == Phase::Idle,
            spec_should_refresh(s.tick),
    {
        Scheduler { tick: 0, phase: Phase::Idle }
    }

    /// Whether the loop goes on: every phase but `Shutdown`.
    pub fn running(&self) -> (go: bool)
        ensures
            go == (self.phase != Phase::Shutdown),
    {
        !matches!(self.phase, Phase::Shutdown)
    }

    /// Enter this tick: decide whether it refreshes and re-renders, and
    /// record the phase accordingly. The counter is unchanged.
    pub fn start_tick(&mut self) -> (render: bool)
        requires
            old(self).phase != Phase::Shutdown,
        ensures
            final(self).tick == old(self).tick,
            render == spec_should_refresh(old(self).tick),
            final(self).phase == if render {
                Phase::Rendering
            } else {
                Phase::Idle
            },
    {
        let render = should_refresh(self.tick);
        self.phase = if render {
            Phase::Rendering
        } else {
            Phase::Idle
        };
        render
    }

    /// Absorb the result of this tick's input poll: an exit key moves the
    /// scheduler to `Shutdown`; anything else leaves it unchanged.
    pub fn absorb_event(&mut self, key: Option<KeyPress>)
        ensures
            final(self).tick == old(self).tick,
            final(self).phase == if (key matches Some(k) && spec_is_exit_key(k)) {
                Phase::Shutdown
            } else {
                old(self).phase
            },
    {
        if let Some(k) = key {
            if is_exit_key(&k) {
                self.phase = Phase::Shutdown;
            }
        }
    }

    /// Move to the next tick; the counter wraps at its upper end.
    pub fn next_tick(&mut self)
        ensures
            final(self).phase == old(self).phase,
            final(self).tick == if old(self).tick == u64::MAX {
                0
            } else {
                old(self).tick + 1
            },
    {
        self.tick = if self.tick == u64::MAX {
            0
        } else {
            self.tick + 1
        };
    }
}

} // verus!
