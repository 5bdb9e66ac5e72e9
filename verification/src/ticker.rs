//! The position clock: how the cached position moves on between two answers
//! of the player.
//!
//! The caller owns the timer. At each wake-up it calls [`PlayerState::tick`]
//! on the shared record, writes the record if the tick advanced it, and
//! sleeps for the interval that the tick asks for.

use vstd::prelude::*;
use crate::player::{PlayerState, PlayerStatus, PlayerView};

verus! {

/// The rate of a player that names none: one second of track per second.
pub const NORMAL_RATE: i64 = 1_000_000;

/// The microseconds to wait before looking again while nothing plays.
pub const IDLE_INTERVAL_MICROS: u64 = 200_000;

/// What one tick did.
#[derive(Clone, Copy, Debug, PartialEq, Eq, Structural)]
pub enum Tick {
    /// A track is playing: the position moved on by `rate` microseconds, the
    /// record is to be written, and the next tick is due after `rate`
    /// microseconds.
    Advanced { rate: i64 },
    /// Nothing is playing: nothing changed, nothing is to be written, and
    /// the next tick is due after [`IDLE_INTERVAL_MICROS`].
    Idle,
}

impl Tick {
    /// The microseconds until the next tick, where such a wait exists: there
    /// is none after an advance at a negative rate.
    pub open spec fn interval(self) -> Option<u64> {
        match self {
            Tick::Idle => Some(IDLE_INTERVAL_MICROS),
            Tick::Advanced { rate } => if rate >= 0 {
                Some(rate as u64)
            } else {
                None
            },
        }
    }

    /// Whether the record is to be written after this tick.
    pub open spec fn emits(self) -> bool {
        self is Advanced
    }

    /// The microseconds to sleep until the next tick, or nothing after an
    /// advance at a negative rate, for which no sleep exists.
    pub fn interval_micros(&self) -> (r: Option<u64>)
        ensures
            r == self.interval(),
    {
        match self {
            Tick::Idle => Some(IDLE_INTERVAL_MICROS),
            Tick::Advanced { rate } => if *rate >= 0 {
                Some(*rate as u64)
            } else {
                None
            },
        }
    }

    /// Whether the record is to be written after this tick.
    pub fn is_advance(&self) -> (r: bool)
        ensures
            r == self.emits(),
    {
        match self {
            Tick::Idle => false,
            Tick::Advanced { .. } => true,
        }
    }
}

impl PlayerView {
    /// Whether the clock runs: the player is playing a track of known
    /// length.
    pub open spec fn is_ticking(self) -> bool {
        self.status == Some(PlayerStatus::Playing) && self.length is Some
    }

    /// The rate by which a tick advances: the player's, or the normal one
    /// where the player names none.
    pub open spec fn tick_rate(self) -> i64 {
        match self.playback_rate {
            Some(rate) => rate,
            None => NORMAL_RATE,
        }
    }

    /// The position from which a tick advances: an absent one counts as the
    /// start of the track.
    pub open spec fn tick_origin(self) -> i64 {
        match self.position {
            Some(p) => p,
            None => 0,
        }
    }

    /// Whether the next tick stays within what a position can hold.
    pub open spec fn tick_fits(self) -> bool {
        self.is_ticking() ==> i64::MIN <= self.tick_origin() + self.tick_rate() <= i64::MAX
    }

    /// The record after one tick: while the clock runs the position has
    /// moved on by the rate, with no upper bound at the track's length;
    /// nothing else ever changes.
    pub open spec fn ticked(self) -> PlayerView {
        if self.is_ticking() {
            PlayerView { position: Some((self.tick_origin() + self.tick_rate()) as i64), ..self }
        } else {
            self
        }
    }

    /// What one tick reports.
    pub open spec fn tick_report(self) -> Tick {
        if self.is_ticking() {
            Tick::Advanced { rate: self.tick_rate() }
        } else {
            Tick::Idle
        }
    }

    /// The record after `n` ticks in a row.
    pub open spec fn ticked_times(self, n: nat) -> PlayerView
        decreases n,
    {
        if n == 0 {
            self
        } else {
            self.ticked_times((n - 1) as nat).ticked()
        }
    }
}

impl PlayerState {
    /// Whether the clock runs: the player is playing a track of known
    /// length.
    pub fn is_ticking(&self) -> (r: bool)
        ensures
            r == self@.is_ticking(),
    {
        let playing = match self.status {
            Some(PlayerStatus::Playing) => true,
            _ => false,
        };
        playing && self.length.is_some()
    }

    /// Whether [`PlayerState::tick`] may be called: the position it would
    /// reach can be held.
    pub fn can_tick(&self) -> (r: bool)
        ensures
            r == self@.tick_fits(),
    {
        if !self.is_ticking() {
            return true;
        }
        let origin: i64 = match self.position {
            Some(p) => p,
            None => 0,
        };
        let rate: i64 = match self.playback_rate {
            Some(rate) => rate,
            None => NORMAL_RATE,
        };
        origin.checked_add(rate).is_some()
    }

    /// One tick of the position clock.
    ///
    /// While the player is playing a track of known length, the position
    /// moves on by the playback rate, or by [`NORMAL_RATE`] where the player
    /// names none; an absent position counts as the start of the track. The
    /// position is not held back at the track's length. In every other state
    /// nothing changes.
    pub fn tick(&mut self) -> (r: Tick)
        requires
            old(self)@.tick_fits(),
        ensures
            r == old(self)@.tick_report(),
            final(self)@ == old(self)@.ticked(),
            old(self)@.wf() ==> final(self)@.wf(),
    {
        if !self.is_ticking() {
            return Tick::Idle;
        }
        let origin: i64 = match self.position {
            Some(p) => p,
            None => 0,
        };
        let rate: i64 = match self.playback_rate {
            Some(rate) => rate,
            None => NORMAL_RATE,
        };
        self.position = Some(origin + rate);
        Tick::Advanced { rate }
    }
}

} // verus!
