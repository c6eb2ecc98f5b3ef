//! The state reconciler: keeps one authoritative [`PipelineData`] in step
//! with one running media pipeline. A UI state change is turned into an
//! ordered list of pipeline commands; a shadow copy of the last timeline
//! the reconciler itself wrote or polled distinguishes an engine-driven
//! position update from a user seek, so a poll result fed back through
//! [`Controller::apply`] never causes a second seek (no feedback loop).
//! A polling timer chain runs only while the intent is to play: each tick
//! re-arms itself exactly when the state it observes is playing.

use vstd::arithmetic::div_mod::{lemma_div_is_ordered, lemma_div_multiples_vanish};
use vstd::arithmetic::mul::{lemma_mul_inequality, lemma_mul_upper_bound};
use vstd::prelude::*;

use crate::pipeline_data::{PipelineData, PipelineState, Timeline, FRAC_UNIT};

verus! {

/// Volume below which the volume indicator shows silence, scaled like
/// `PipelineData::volume` (stands for 0.01).
pub const VOLUME_SILENT: u64 = 10_000;

/// Volume below which the volume indicator shows a quiet speaker, scaled
/// like `PipelineData::volume` (stands for 0.3).
pub const VOLUME_QUIET: u64 = 300_000;

/// One imperative call the engine shell must make on the pipeline, in the
/// order returned by [`Controller::apply`].
#[derive(Copy, Clone, Eq, PartialEq, Structural, Debug)]
pub enum PipelineCommand {
    /// Change the pipeline state to playing or paused.
    SetState(PipelineState),
    /// Flushing seek to an absolute position, in nanoseconds.
    Seek(u64),
    /// Push the volume property, scaled by `VOLUME_UNIT`.
    SetVolume(u64),
    /// Push the mute property.
    SetMute(bool),
}

/// How a failed pipeline command surfaces to the caller of the
/// reconciler. The session is not torn down: the caller logs the error
/// and continues with stale pipeline state.
#[derive(Copy, Clone, Eq, PartialEq, Structural, Debug)]
pub enum ReconcileError {
    StateChangeFailed,
    SeekFailed,
    PropertySetFailed,
}

/// The error kind that a failure of the given command surfaces as.
pub fn command_failure(cmd: &PipelineCommand) -> (e: ReconcileError)
    ensures
        cmd is SetState ==> e == ReconcileError::StateChangeFailed,
        cmd is Seek ==> e == ReconcileError::SeekFailed,
        cmd is SetVolume || cmd is SetMute ==> e == ReconcileError::PropertySetFailed,
{
    match cmd {
        PipelineCommand::SetState(_) => ReconcileError::StateChangeFailed,
        PipelineCommand::Seek(_) => ReconcileError::SeekFailed,
        PipelineCommand::SetVolume(_) => ReconcileError::PropertySetFailed,
        PipelineCommand::SetMute(_) => ReconcileError::PropertySetFailed,
    }
}

/// Absolute seek target in nanoseconds: the position fraction applied to
/// the duration.
pub open spec fn seek_target(t: Timeline) -> u64
    recommends
        t.wf(),
{
    (t.frac * t.duration / (FRAC_UNIT as int)) as u64
}

/// The state-change commands `apply` issues: one exactly when the intent
/// changed.
pub open spec fn state_cmds(old_d: PipelineData, new_d: PipelineData) -> Seq<PipelineCommand> {
    if old_d.state != new_d.state {
        seq![PipelineCommand::SetState(new_d.state)]
    } else {
        Seq::empty()
    }
}

/// A seek is wanted exactly when the new timeline differs from the
/// reconciler's shadow (so the change did not come from its own poll) and
/// the duration is known: while the duration is unknown no seek may be
/// issued.
pub open spec fn seek_wanted(predicted: Timeline, new_d: PipelineData) -> bool {
    new_d.timeline != predicted && new_d.timeline.duration != 0
}

/// The seek commands `apply` issues: one exactly when a seek is wanted.
pub open spec fn seek_cmds(predicted: Timeline, new_d: PipelineData) -> Seq<PipelineCommand> {
    if seek_wanted(predicted, new_d) {
        seq![PipelineCommand::Seek(seek_target(new_d.timeline))]
    } else {
        Seq::empty()
    }
}

/// The volume push `apply` issues: one exactly when the volume changed.
pub open spec fn volume_cmds(old_d: PipelineData, new_d: PipelineData) -> Seq<PipelineCommand> {
    if old_d.volume != new_d.volume {
        seq![PipelineCommand::SetVolume(new_d.volume)]
    } else {
        Seq::empty()
    }
}

/// The mute push `apply` issues: one exactly when the mute flag changed.
pub open spec fn mute_cmds(old_d: PipelineData, new_d: PipelineData) -> Seq<PipelineCommand> {
    if old_d.muted != new_d.muted {
        seq![PipelineCommand::SetMute(new_d.muted)]
    } else {
        Seq::empty()
    }
}

/// Everything `apply` issues for one observed state change, in order:
/// state change, then seek, then volume, then mute.
pub open spec fn apply_cmds(predicted: Timeline, old_d: PipelineData, new_d: PipelineData) -> Seq<
    PipelineCommand,
> {
    state_cmds(old_d, new_d) + seek_cmds(predicted, new_d) + volume_cmds(old_d, new_d)
        + mute_cmds(old_d, new_d)
}

/// The absolute seek target of a timeline, in nanoseconds.
pub fn compute_seek_target(t: &Timeline) -> (r: u64)
    requires
        t.wf(),
    ensures
        r == seek_target(*t),
{
    proof {
        lemma_mul_upper_bound(t.frac as int, FRAC_UNIT as int, t.duration as int, u64::MAX as int);
    }
    let num: u128 = (t.frac as u128) * (t.duration as u128);
    let q: u128 = num / (FRAC_UNIT as u128);
    proof {
        lemma_mul_inequality(t.frac as int, FRAC_UNIT as int, t.duration as int);
        lemma_div_is_ordered(
            (t.frac as int) * (t.duration as int),
            (FRAC_UNIT as int) * (t.duration as int),
            FRAC_UNIT as int,
        );
        lemma_div_multiples_vanish(t.duration as int, FRAC_UNIT as int);
    }
    q as u64
}

/// Whether a command is a pipeline state change.
pub open spec fn is_state_cmd(c: PipelineCommand) -> bool {
    c is SetState
}

/// Whether a command is a seek.
pub open spec fn is_seek_cmd(c: PipelineCommand) -> bool {
    c is Seek
}

/// The filter of a sequence of at most one command, written out.
proof fn lemma_filter_small(s: Seq<PipelineCommand>, pred: spec_fn(PipelineCommand) -> bool)
    requires
        s.len() <= 1,
    ensures
        s.filter(pred) == (if s.len() == 1 && pred(s[0]) {
            s
        } else {
            Seq::<PipelineCommand>::empty()
        }),
{
    reveal_with_fuel(Seq::filter, 2);
    if s.len() == 1 {
        assert(s.drop_last() =~= Seq::<PipelineCommand>::empty());
        if pred(s[0]) {
            assert(s.filter(pred) =~= s);
        } else {
            assert(s.filter(pred) =~= Seq::<PipelineCommand>::empty());
        }
    }
}

/// Filtering the command list of `apply` goes part by part.
proof fn lemma_apply_cmds_filter(
    predicted: Timeline,
    old_d: PipelineData,
    new_d: PipelineData,
    pred: spec_fn(PipelineCommand) -> bool,
)
    ensures
        apply_cmds(predicted, old_d, new_d).filter(pred) == state_cmds(old_d, new_d).filter(pred)
            + seek_cmds(predicted, new_d).filter(pred) + volume_cmds(old_d, new_d).filter(pred)
            + mute_cmds(old_d, new_d).filter(pred),
{
    let a = state_cmds(old_d, new_d);
    let b = seek_cmds(predicted, new_d);
    let c = volume_cmds(old_d, new_d);
    let d = mute_cmds(old_d, new_d);
    Seq::filter_distributes_over_add(a, b, pred);
    Seq::filter_distributes_over_add(a + b, c, pred);
    Seq::filter_distributes_over_add(a + b + c, d, pred);
}

/// When the intent did not change, `apply` issues zero state-change
/// calls.
pub proof fn lemma_same_intent_no_state_change(
    predicted: Timeline,
    old_d: PipelineData,
    new_d: PipelineData,
)
    requires
        old_d.state == new_d.state,
    ensures
        apply_cmds(predicted, old_d, new_d).filter(|c: PipelineCommand| is_state_cmd(c))
            == Seq::<PipelineCommand>::empty(),
{
    let pred = |c: PipelineCommand| is_state_cmd(c);
    lemma_apply_cmds_filter(predicted, old_d, new_d, pred);
    lemma_filter_small(state_cmds(old_d, new_d), pred);
    lemma_filter_small(seek_cmds(predicted, new_d), pred);
    lemma_filter_small(volume_cmds(old_d, new_d), pred);
    lemma_filter_small(mute_cmds(old_d, new_d), pred);
    assert(apply_cmds(predicted, old_d, new_d).filter(pred)
        =~= Seq::<PipelineCommand>::empty());
}

/// No feedback loop: when the new timeline equals the reconciler's
/// shadow — as after its own poll tick — `apply` issues zero seeks.
pub proof fn lemma_predicted_timeline_no_seek(
    predicted: Timeline,
    old_d: PipelineData,
    new_d: PipelineData,
)
    requires
        new_d.timeline == predicted,
    ensures
        apply_cmds(predicted, old_d, new_d).filter(|c: PipelineCommand| is_seek_cmd(c))
            == Seq::<PipelineCommand>::empty(),
{
    let pred = |c: PipelineCommand| is_seek_cmd(c);
    lemma_apply_cmds_filter(predicted, old_d, new_d, pred);
    lemma_filter_small(state_cmds(old_d, new_d), pred);
    lemma_filter_small(seek_cmds(predicted, new_d), pred);
    lemma_filter_small(volume_cmds(old_d, new_d), pred);
    lemma_filter_small(mute_cmds(old_d, new_d), pred);
    assert(apply_cmds(predicted, old_d, new_d).filter(pred)
        =~= Seq::<PipelineCommand>::empty());
}

/// While the duration is unknown, `apply` issues zero seeks, however the
/// timeline moved.
pub proof fn lemma_unknown_duration_no_seek(
    predicted: Timeline,
    old_d: PipelineData,
    new_d: PipelineData,
)
    requires
        new_d.timeline.duration == 0,
    ensures
        apply_cmds(predicted, old_d, new_d).filter(|c: PipelineCommand| is_seek_cmd(c))
            == Seq::<PipelineCommand>::empty(),
{
    let pred = |c: PipelineCommand| is_seek_cmd(c);
    lemma_apply_cmds_filter(predicted, old_d, new_d, pred);
    lemma_filter_small(state_cmds(old_d, new_d), pred);
    lemma_filter_small(seek_cmds(predicted, new_d), pred);
    lemma_filter_small(volume_cmds(old_d, new_d), pred);
    lemma_filter_small(mute_cmds(old_d, new_d), pred);
    assert(apply_cmds(predicted, old_d, new_d).filter(pred)
        =~= Seq::<PipelineCommand>::empty());
}

/// When the new timeline differs from the shadow and the duration is
/// known, `apply` issues exactly one seek, whose target is the position
/// fraction applied to the duration.
pub proof fn lemma_new_timeline_one_seek(
    predicted: Timeline,
    old_d: PipelineData,
    new_d: PipelineData,
)
    requires
        new_d.timeline != predicted,
        new_d.timeline.duration != 0,
    ensures
        apply_cmds(predicted, old_d, new_d).filter(|c: PipelineCommand| is_seek_cmd(c))
            == seq![PipelineCommand::Seek(seek_target(new_d.timeline))],
{
    let pred = |c: PipelineCommand| is_seek_cmd(c);
    lemma_apply_cmds_filter(predicted, old_d, new_d, pred);
    lemma_filter_small(state_cmds(old_d, new_d), pred);
    lemma_filter_small(seek_cmds(predicted, new_d), pred);
    lemma_filter_small(volume_cmds(old_d, new_d), pred);
    lemma_filter_small(mute_cmds(old_d, new_d), pred);
    assert(apply_cmds(predicted, old_d, new_d).filter(pred)
        =~= seq![PipelineCommand::Seek(seek_target(new_d.timeline))]);
}

/// Volume and mute pushes are independent: when only the volume changed,
/// `apply` issues exactly one command, the volume push — not a mute push
/// beside it.
pub proof fn lemma_volume_change_pushes_volume_alone(
    predicted: Timeline,
    old_d: PipelineData,
    new_d: PipelineData,
)
    requires
        old_d.state == new_d.state,
        new_d.timeline == predicted,
        old_d.muted == new_d.muted,
        old_d.volume != new_d.volume,
    ensures
        apply_cmds(predicted, old_d, new_d) == seq![PipelineCommand::SetVolume(new_d.volume)],
{
    assert(apply_cmds(predicted, old_d, new_d)
        =~= seq![PipelineCommand::SetVolume(new_d.volume)]);
}

/// The duration a poll tick records: an unanswered query, or an answer
/// of zero, keeps the "duration unknown" sentinel 0 — it is not
/// determinable and must not pass for a real duration, so no seek can
/// be issued against it.
pub open spec fn polled_duration(duration: Option<u64>) -> u64 {
    match duration {
        Some(d) => d,
        None => 0,
    }
}

/// The position fraction a poll tick computes: position over duration,
/// scaled by `FRAC_UNIT` and clamped to it. While the duration is
/// unknown there is no fraction to show; 0 is the display fallback.
pub open spec fn polled_frac(position: Option<u64>, duration: Option<u64>) -> u64 {
    let p = (match position {
        Some(p) => p,
        None => 0,
    });
    let d = polled_duration(duration);
    if d == 0 {
        0
    } else {
        let f = p * FRAC_UNIT / (d as int);
        if f > FRAC_UNIT {
            FRAC_UNIT
        } else {
            f as u64
        }
    }
}

/// The timeline a poll tick builds from the engine's answers.
pub open spec fn timeline_from_query(position: Option<u64>, duration: Option<u64>) -> Timeline {
    Timeline {
        frac: polled_frac(position, duration),
        duration: polled_duration(duration),
    }
}

/// Build a fresh timeline from the answers of a position query and a
/// duration query, `None` meaning "not currently determinable". An
/// unknown or zero duration keeps the unknown sentinel 0, with the
/// position fraction 0 as the display fallback.
pub fn get_timeline(position: Option<u64>, duration: Option<u64>) -> (t: Timeline)
    ensures
        t == timeline_from_query(position, duration),
        t.wf(),
{
    let p: u64 = match position {
        Some(p) => p,
        None => 0,
    };
    let d: u64 = match duration {
        Some(d) => d,
        None => 0,
    };
    if d == 0 {
        return Timeline { frac: 0, duration: 0 };
    }
    proof {
        lemma_mul_upper_bound(p as int, u64::MAX as int, FRAC_UNIT as int, FRAC_UNIT as int);
    }
    let num: u128 = (p as u128) * (FRAC_UNIT as u128);
    let f: u128 = num / (d as u128);
    let frac: u64 = if f > (FRAC_UNIT as u128) {
        FRAC_UNIT
    } else {
        f as u64
    };
    Timeline { frac, duration: d }
}

/// What the volume indicator of the control strip shows.
#[derive(Copy, Clone, Eq, PartialEq, Structural, Debug)]
pub enum VolumeIcon {
    /// Muted, whatever the volume.
    Muted,
    /// Volume below `VOLUME_SILENT`.
    Silent,
    /// Volume from `VOLUME_SILENT` up to below `VOLUME_QUIET`.
    Quiet,
    /// Volume at or above `VOLUME_QUIET`.
    Loud,
}

/// The indicator for a given volume and mute flag: mute wins, otherwise
/// the volume's band decides.
pub fn volume_icon(volume: u64, muted: bool) -> (r: VolumeIcon)
    ensures
        muted ==> r == VolumeIcon::Muted,
        !muted && volume < VOLUME_SILENT ==> r == VolumeIcon::Silent,
        !muted && VOLUME_SILENT <= volume < VOLUME_QUIET ==> r == VolumeIcon::Quiet,
        !muted && VOLUME_QUIET <= volume ==> r == VolumeIcon::Loud,
{
    if muted {
        VolumeIcon::Muted
    } else if volume < VOLUME_SILENT {
        VolumeIcon::Silent
    } else if volume < VOLUME_QUIET {
        VolumeIcon::Quiet
    } else {
        VolumeIcon::Loud
    }
}

/// Abstract state of the polling timer chain: whether the intent is to
/// play, and whether a tick is scheduled.
pub struct ChainState {
    pub playing: bool,
    pub armed: bool,
}

/// Event at the timer chain: a click that toggles the intent, or a
/// scheduled tick firing.
pub enum ChainEvent {
    Toggle,
    Tick,
}

/// One step of the timer chain. Entering playing schedules a tick;
/// leaving it does not cancel the one already scheduled. A tick that
/// fires re-arms exactly when it observes a playing intent.
pub open spec fn chain_step(s: ChainState, e: ChainEvent) -> ChainState {
    match e {
        ChainEvent::Toggle => ChainState {
            playing: !s.playing,
            armed: if !s.playing {
                true
            } else {
                s.armed
            },
        },
        ChainEvent::Tick => ChainState { playing: s.playing, armed: s.playing },
    }
}

/// A run of the timer chain is valid when every tick in it was actually
/// scheduled: a tick can only fire while the chain is armed.
pub open spec fn chain_valid(s: ChainState, es: Seq<ChainEvent>) -> bool
    decreases es.len(),
{
    es.len() == 0 || ((es[0] is Tick ==> s.armed) && chain_valid(
        chain_step(s, es[0]),
        es.drop_first(),
    ))
}

/// The chain state after a run of events.
pub open spec fn chain_run(s: ChainState, es: Seq<ChainEvent>) -> ChainState
    decreases es.len(),
{
    if es.len() == 0 {
        s
    } else {
        chain_run(chain_step(s, es[0]), es.drop_first())
    }
}

/// Whether every event of a run is a tick (no clicks arrive).
pub open spec fn all_ticks(es: Seq<ChainEvent>) -> bool {
    forall|i: int| 0 <= i < es.len() ==> es[i] is Tick
}

/// Starting paused with no tick scheduled, no tick ever fires: as long
/// as no toggle arrives, the only valid run of ticks is the empty one.
pub proof fn lemma_paused_chain_idle(s: ChainState, es: Seq<ChainEvent>)
    requires
        !s.playing,
        !s.armed,
        all_ticks(es),
        chain_valid(s, es),
    ensures
        es.len() == 0,
{
    if es.len() != 0 {
        assert(es[0] is Tick);
    }
}

/// While the intent stays playing, the tick chain keeps itself alive:
/// any run of ticks is valid and leaves the chain armed and playing.
pub proof fn lemma_playing_chain_continues(s: ChainState, es: Seq<ChainEvent>)
    requires
        s.playing,
        s.armed,
        all_ticks(es),
    ensures
        chain_valid(s, es),
        chain_run(s, es).armed,
        chain_run(s, es).playing,
    decreases es.len(),
{
    if es.len() != 0 {
        assert(es[0] is Tick);
        let s2 = chain_step(s, es[0]);
        assert(all_ticks(es.drop_first())) by {
            assert(forall|i: int|
                0 <= i < es.drop_first().len() ==> es.drop_first()[i] == es[i + 1]);
        }
        lemma_playing_chain_continues(s2, es.drop_first());
    }
}

/// Once the intent has returned to paused, at most one already-scheduled
/// tick still fires, and then the chain stops: a valid run of ticks from
/// a paused chain has at most one event.
pub proof fn lemma_paused_chain_stops(s: ChainState, es: Seq<ChainEvent>)
    requires
        !s.playing,
        all_ticks(es),
        chain_valid(s, es),
    ensures
        es.len() <= 1,
{
    if es.len() >= 2 {
        assert(es[0] is Tick);
        let s2 = chain_step(s, es[0]);
        assert(!s2.playing && !s2.armed);
        assert(all_ticks(es.drop_first())) by {
            assert(forall|i: int|
                0 <= i < es.drop_first().len() ==> es.drop_first()[i] == es[i + 1]);
        }
        lemma_paused_chain_idle(s2, es.drop_first());
    }
}

/// Reconciles UI-visible playback state with the running pipeline.
pub struct Controller {
    /// Shadow of the last timeline value this reconciler wrote to the
    /// pipeline (by seek) or read from it (by poll). A timeline equal to
    /// the shadow is already known to the pipeline and must not be
    /// seeked to again.
    pub updated_time: Timeline,
    /// Whether a poll tick is currently scheduled.
    pub timer_armed: bool,
}

impl Controller {
    /// Fresh reconciler: shadow at the initial timeline, no tick
    /// scheduled.
    pub fn new() -> (c: Self)
        ensures
            c.updated_time == (Timeline { frac: 0, duration: 0 }),
            !c.timer_armed,
    {
        Controller { updated_time: Timeline::new(), timer_armed: false }
    }

    /// Reconcile one observed state change: returns the pipeline
    /// commands to issue, in order, and moves the shadow to the new
    /// timeline.
    pub fn apply(&mut self, old_data: &PipelineData, new_data: &PipelineData) -> (cmds: Vec<
        PipelineCommand,
    >)
        requires
            new_data.wf(),
        ensures
            cmds@ == apply_cmds(old(self).updated_time, *old_data, *new_data),
            final(self).updated_time == new_data.timeline,
            final(self).timer_armed == old(self).timer_armed,
    {
        let mut cmds: Vec<PipelineCommand> = Vec::new();
        if old_data.state != new_data.state {
            cmds.push(PipelineCommand::SetState(new_data.state));
        }
        if new_data.timeline != self.updated_time && new_data.timeline.duration != 0 {
            let target = compute_seek_target(&new_data.timeline);
            cmds.push(PipelineCommand::Seek(target));
        }
        self.updated_time = new_data.timeline;
        if old_data.volume != new_data.volume {
            cmds.push(PipelineCommand::SetVolume(new_data.volume));
        }
        if old_data.muted != new_data.muted {
            cmds.push(PipelineCommand::SetMute(new_data.muted));
        }
        proof {
            assert(cmds@ =~= apply_cmds(old(self).updated_time, *old_data, *new_data));
        }
        cmds
    }

    /// A click on the play/pause control: toggles the intent
    /// unconditionally, leaving the rest of the state alone. Returns
    /// whether a first poll tick must be scheduled, which is exactly
    /// when the session enters playing.
    pub fn on_toggle_click(&mut self, data: &mut PipelineData) -> (schedule: bool)
        ensures
            *final(data) == (PipelineData {
                state: if old(data).state is Play {
                    PipelineState::Pause
                } else {
                    PipelineState::Play
                },
                ..*old(data)
            }),
            schedule == (old(data).state is Pause),
            final(self).updated_time == old(self).updated_time,
            final(self).timer_armed == (old(self).timer_armed || old(data).state is Pause),
            (ChainState {
                playing: final(data).state is Play,
                armed: final(self).timer_armed,
            }) == chain_step(
                ChainState {
                    playing: old(data).state is Play,
                    armed: old(self).timer_armed,
                },
                ChainEvent::Toggle,
            ),
    {
        if data.state == PipelineState::Pause {
            data.state = PipelineState::Play;
            self.timer_armed = true;
            true
        } else {
            data.state = PipelineState::Pause;
            false
        }
    }

    /// A scheduled poll tick fired. While the intent is to play, it
    /// builds a fresh timeline from the engine's position and duration
    /// answers, moves the shadow to it (so feeding the returned state
    /// through `apply` issues no seek), and re-arms; the caller
    /// publishes the returned state and schedules the next tick. A tick
    /// that observes a paused intent changes nothing and lets the chain
    /// end.
    pub fn on_timer_tick(
        &mut self,
        data: &PipelineData,
        position: Option<u64>,
        duration: Option<u64>,
    ) -> (updated: Option<PipelineData>)
        requires
            old(self).timer_armed,
            data.wf(),
        ensures
            final(self).timer_armed == (data.state is Play),
            updated is Some <==> data.state is Play,
            data.state is Play ==> updated == Some(
                PipelineData { timeline: timeline_from_query(position, duration), ..*data },
            ),
            data.state is Play ==> final(self).updated_time == timeline_from_query(
                position,
                duration,
            ),
            data.state is Pause ==> final(self).updated_time == old(self).updated_time,
            updated matches Some(u) ==> u.wf(),
            (ChainState {
                playing: data.state is Play,
                armed: final(self).timer_armed,
            }) == chain_step(
                ChainState { playing: data.state is Play, armed: old(self).timer_armed },
                ChainEvent::Tick,
            ),
    {
        if data.state == PipelineState::Play {
            let timeline = get_timeline(position, duration);
            self.updated_time = timeline;
            self.timer_armed = true;
            Some(PipelineData { timeline, ..*data })
        } else {
            self.timer_armed = false;
            None
        }
    }
}

} // verus!
