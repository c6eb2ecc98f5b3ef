//! The UI-visible playback data model: playback intent, timeline position,
//! volume and mute. Fractional quantities (timeline position as a fraction
//! of the duration, volume in `[0, 1]`) are held as integers scaled by
//! `FRAC_UNIT` / `VOLUME_UNIT`, so equality of two states is exact.

use vstd::prelude::*;

verus! {

/// Scale of `Timeline::frac`: `FRAC_UNIT` stands for the fraction 1.0
/// (end of the media), 0 for the beginning.
pub const FRAC_UNIT: u64 = 1_000_000;

/// Scale of `PipelineData::volume`: `VOLUME_UNIT` stands for full volume.
pub const VOLUME_UNIT: u64 = 1_000_000;

/// Playback intent: whether the session is meant to be playing or paused.
#[derive(Copy, Clone, Eq, PartialEq, Structural, Debug)]
pub enum PipelineState {
    Play,
    Pause,
}

/// Position within the media: `frac` is the position as a fraction of the
/// duration, scaled by `FRAC_UNIT`; `duration` is the media length in
/// nanoseconds, with 0 meaning "duration unknown".
#[derive(Copy, Clone, Eq, PartialEq, Structural, Debug)]
pub struct Timeline {
    pub frac: u64,
    pub duration: u64,
}

/// The whole UI-visible playback state.
#[derive(Copy, Clone, Eq, PartialEq, Structural, Debug)]
pub struct PipelineData {
    pub state: PipelineState,
    pub timeline: Timeline,
    pub volume: u64,
    pub muted: bool,
}

impl PipelineState {
    /// Equality check, kept under this name for toolkit data adapters.
    pub fn same(&self, other: &Self) -> (r: bool)
        ensures
            r == (self == other),
    {
        *self == *other
    }

    /// The opposite intent: a UI click toggles unconditionally.
    pub fn toggled(self) -> (r: Self)
        ensures
            r == (if self is Play { PipelineState::Pause } else { PipelineState::Play }),
    {
        match self {
            PipelineState::Play => PipelineState::Pause,
            PipelineState::Pause => PipelineState::Play,
        }
    }
}

impl Timeline {
    /// The position fraction never exceeds the scale (position lies in
    /// `[0, 1]` of the duration).
    pub open spec fn wf(self) -> bool {
        self.frac <= FRAC_UNIT
    }

    /// Fresh timeline: position 0, duration unknown.
    pub fn new() -> (t: Self)
        ensures
            t == (Timeline { frac: 0, duration: 0 }),
            t.wf(),
    {
        Timeline { frac: 0, duration: 0 }
    }

    /// Exact equality, kept under this name for toolkit data adapters:
    /// any change of position or duration, however small, is a distinct
    /// timeline.
    pub fn same(&self, other: &Self) -> (r: bool)
        ensures
            r == (self == other),
    {
        *self == *other
    }
}

impl Default for Timeline {
    fn default() -> (t: Self)
        ensures
            t == (Timeline { frac: 0, duration: 0 }),
    {
        Timeline::new()
    }
}

impl PipelineData {
    /// Validity of the whole state: fraction and volume within scale.
    pub open spec fn wf(self) -> bool {
        self.timeline.wf() && self.volume <= VOLUME_UNIT
    }

    /// Session start state: paused, at the beginning of an unknown
    /// duration, full volume, not muted.
    pub fn new() -> (d: Self)
        ensures
            d == (PipelineData {
                state: PipelineState::Pause,
                timeline: Timeline { frac: 0, duration: 0 },
                volume: VOLUME_UNIT,
                muted: false,
            }),
            d.wf(),
    {
        PipelineData {
            state: PipelineState::Pause,
            timeline: Timeline::new(),
            volume: VOLUME_UNIT,
            muted: false,
        }
    }

    /// Flip the mute flag, leaving everything else as it was.
    pub fn toggle_muted(&mut self)
        ensures
            *final(self) == (PipelineData { muted: !old(self).muted, ..*old(self) }),
    {
        self.muted = !self.muted;
    }
}

impl Default for PipelineData {
    fn default() -> (d: Self)
        ensures
            d == (PipelineData {
                state: PipelineState::Pause,
                timeline: Timeline { frac: 0, duration: 0 },
                volume: VOLUME_UNIT,
                muted: false,
            }),
    {
        PipelineData::new()
    }
}

} // verus!
