use druid_media::controller::{
    command_failure, get_timeline, volume_icon, PipelineCommand, ReconcileError, VolumeIcon,
    VOLUME_QUIET, VOLUME_SILENT,
};
use druid_media::pipeline_data::{FRAC_UNIT, VOLUME_UNIT};
use druid_media::{Controller, PipelineData, PipelineState, Timeline};

fn start_state() -> PipelineData {
    PipelineData::new()
}

#[test]
fn initial_state_is_paused_at_zero() {
    let d = start_state();
    assert_eq!(d.state, PipelineState::Pause);
    assert_eq!(d.timeline, Timeline { frac: 0, duration: 0 });
    assert_eq!(d.volume, VOLUME_UNIT);
    assert!(!d.muted);
    assert_eq!(PipelineData::default(), d);
    assert_eq!(Timeline::default(), Timeline::new());
}

#[test]
fn same_is_exact_equality() {
    let a = Timeline { frac: 5, duration: 100 };
    let b = Timeline { frac: 5, duration: 100 };
    let c = Timeline { frac: 6, duration: 100 };
    assert!(a.same(&b));
    assert!(!a.same(&c));
    assert!(PipelineState::Play.same(&PipelineState::Play));
    assert!(!PipelineState::Play.same(&PipelineState::Pause));
}

#[test]
fn toggled_flips_intent() {
    assert_eq!(PipelineState::Play.toggled(), PipelineState::Pause);
    assert_eq!(PipelineState::Pause.toggled(), PipelineState::Play);
    let mut d = start_state();
    d.toggle_muted();
    assert!(d.muted);
    d.toggle_muted();
    assert!(!d.muted);
}

#[test]
fn same_intent_issues_no_state_change() {
    // P1: old.intent == new.intent, whatever else changes.
    let mut c = Controller::new();
    let old_d = start_state();
    let new_d = PipelineData {
        timeline: Timeline {
            frac: FRAC_UNIT / 2,
            duration: 1_000_000,
        },
        volume: 42,
        muted: true,
        ..old_d
    };
    let cmds = c.apply(&old_d, &new_d);
    assert!(cmds
        .iter()
        .all(|cmd| !matches!(cmd, PipelineCommand::SetState(_))));
}

#[test]
fn intent_change_issues_one_state_change() {
    let mut c = Controller::new();
    let old_d = start_state();
    let new_d = PipelineData {
        state: PipelineState::Play,
        ..old_d
    };
    let cmds = c.apply(&old_d, &new_d);
    assert_eq!(cmds, vec![PipelineCommand::SetState(PipelineState::Play)]);
}

#[test]
fn poll_result_issues_no_seek() {
    // P2: simulate a poll tick producing timeline T, then apply with
    // new.timeline == T — no seek, no feedback loop.
    let mut c = Controller::new();
    let playing = PipelineData {
        state: PipelineState::Play,
        ..start_state()
    };
    c.timer_armed = true;
    let polled = c
        .on_timer_tick(&playing, Some(500_000), Some(2_000_000))
        .expect("tick while playing must yield a state");
    let cmds = c.apply(&playing, &polled);
    assert!(cmds
        .iter()
        .all(|cmd| !matches!(cmd, PipelineCommand::Seek(_))));
    assert_eq!(cmds, vec![]);
}

#[test]
fn user_seek_issues_exactly_one_seek() {
    // P3: new.timeline != PredictedTimeline, target = fraction * duration.
    let mut c = Controller::new();
    let old_d = start_state();
    let new_d = PipelineData {
        timeline: Timeline {
            frac: FRAC_UNIT / 4,
            duration: 8_000_000,
        },
        ..old_d
    };
    let cmds = c.apply(&old_d, &new_d);
    let seeks: Vec<&PipelineCommand> = cmds
        .iter()
        .filter(|cmd| matches!(cmd, PipelineCommand::Seek(_)))
        .collect();
    assert_eq!(seeks, vec![&PipelineCommand::Seek(2_000_000)]);
}

#[test]
fn seek_applied_once_not_twice() {
    // Applying the same timeline again hits the shadow: no second seek.
    let mut c = Controller::new();
    let old_d = start_state();
    let new_d = PipelineData {
        timeline: Timeline {
            frac: FRAC_UNIT,
            duration: 3_000,
        },
        ..old_d
    };
    let first = c.apply(&old_d, &new_d);
    assert_eq!(first, vec![PipelineCommand::Seek(3_000)]);
    let second = c.apply(&new_d, &new_d);
    assert_eq!(second, vec![]);
}

#[test]
fn unknown_duration_suppresses_seek() {
    // Duration 0 means unknown: no seek may be issued.
    let mut c = Controller::new();
    let old_d = start_state();
    let new_d = PipelineData {
        timeline: Timeline {
            frac: FRAC_UNIT / 2,
            duration: 0,
        },
        ..old_d
    };
    let cmds = c.apply(&old_d, &new_d);
    assert_eq!(cmds, vec![]);
}

#[test]
fn volume_change_pushes_volume_alone() {
    // P7: changing volume alone triggers exactly one property push.
    let mut c = Controller::new();
    let old_d = start_state();
    let new_d = PipelineData {
        volume: VOLUME_UNIT / 2,
        ..old_d
    };
    let cmds = c.apply(&old_d, &new_d);
    assert_eq!(cmds, vec![PipelineCommand::SetVolume(VOLUME_UNIT / 2)]);
}

#[test]
fn mute_change_pushes_mute_alone() {
    let mut c = Controller::new();
    let old_d = start_state();
    let new_d = PipelineData {
        muted: true,
        ..old_d
    };
    let cmds = c.apply(&old_d, &new_d);
    assert_eq!(cmds, vec![PipelineCommand::SetMute(true)]);
}

#[test]
fn commands_come_in_order() {
    // Everything changes at once: state, seek, volume, mute, in order.
    let mut c = Controller::new();
    let old_d = start_state();
    let new_d = PipelineData {
        state: PipelineState::Play,
        timeline: Timeline {
            frac: FRAC_UNIT / 2,
            duration: 1_000_000,
        },
        volume: 0,
        muted: true,
    };
    let cmds = c.apply(&old_d, &new_d);
    assert_eq!(
        cmds,
        vec![
            PipelineCommand::SetState(PipelineState::Play),
            PipelineCommand::Seek(500_000),
            PipelineCommand::SetVolume(0),
            PipelineCommand::SetMute(true),
        ]
    );
}

#[test]
fn paused_start_schedules_no_tick() {
    // P6: starting from Paused, nothing is armed until a toggle.
    let c = Controller::new();
    assert!(!c.timer_armed);
}

#[test]
fn toggle_to_playing_starts_tick_chain() {
    // P6: toggling to Playing schedules a tick chain that continues
    // while playing.
    let mut c = Controller::new();
    let mut d = start_state();
    let schedule = c.on_toggle_click(&mut d);
    assert!(schedule);
    assert_eq!(d.state, PipelineState::Play);
    assert!(c.timer_armed);
    for _ in 0..3 {
        let updated = c.on_timer_tick(&d, Some(1), Some(10));
        assert!(updated.is_some());
        assert!(c.timer_armed);
    }
}

#[test]
fn pause_lets_chain_end_after_one_tick() {
    // P6: after intent returns to Paused, the already-scheduled tick
    // fires once, observes Paused, and the chain stops.
    let mut c = Controller::new();
    let mut d = start_state();
    c.on_toggle_click(&mut d);
    assert!(c.timer_armed);
    let schedule_again = c.on_toggle_click(&mut d);
    assert!(!schedule_again);
    assert_eq!(d.state, PipelineState::Pause);
    assert!(c.timer_armed);
    let updated = c.on_timer_tick(&d, Some(1), Some(10));
    assert!(updated.is_none());
    assert!(!c.timer_armed);
}

#[test]
fn tick_updates_timeline_and_shadow() {
    let mut c = Controller::new();
    let playing = PipelineData {
        state: PipelineState::Play,
        ..start_state()
    };
    c.timer_armed = true;
    let updated = c
        .on_timer_tick(&playing, Some(250), Some(1_000))
        .expect("tick while playing must yield a state");
    let expected = Timeline {
        frac: FRAC_UNIT / 4,
        duration: 1_000,
    };
    assert_eq!(updated.timeline, expected);
    assert_eq!(c.updated_time, expected);
    assert_eq!(updated.state, PipelineState::Play);
    assert_eq!(updated.volume, playing.volume);
    assert_eq!(updated.muted, playing.muted);
}

#[test]
fn get_timeline_falls_back_on_unknown() {
    // An unanswered duration query keeps the unknown sentinel 0, with
    // fraction 0 as the display fallback, whatever the position says.
    assert_eq!(get_timeline(None, None), Timeline { frac: 0, duration: 0 });
    assert_eq!(
        get_timeline(Some(5_000), None),
        Timeline { frac: 0, duration: 0 }
    );
    // A zero answer means the same: not determinable.
    assert_eq!(
        get_timeline(Some(5_000), Some(0)),
        Timeline { frac: 0, duration: 0 }
    );
}

#[test]
fn poll_with_unknown_duration_blocks_seeks() {
    // A poll that cannot determine the duration publishes the unknown
    // sentinel; a later slider drag against it issues no seek.
    let mut c = Controller::new();
    let playing = PipelineData {
        state: PipelineState::Play,
        ..start_state()
    };
    c.timer_armed = true;
    let polled = c
        .on_timer_tick(&playing, Some(5_000), None)
        .expect("tick while playing must yield a state");
    assert_eq!(polled.timeline, Timeline { frac: 0, duration: 0 });
    let dragged = PipelineData {
        timeline: Timeline {
            frac: FRAC_UNIT / 2,
            duration: 0,
        },
        ..polled
    };
    let cmds = c.apply(&polled, &dragged);
    assert_eq!(cmds, vec![]);
}

#[test]
fn get_timeline_clamps_past_the_end() {
    // Position beyond the duration clamps the fraction to 1.0.
    let t = get_timeline(Some(2_000), Some(1_000));
    assert_eq!(
        t,
        Timeline {
            frac: FRAC_UNIT,
            duration: 1_000
        }
    );
}

#[test]
fn get_timeline_computes_exact_fraction() {
    let t = get_timeline(Some(300), Some(400));
    assert_eq!(
        t,
        Timeline {
            frac: 750_000,
            duration: 400
        }
    );
}

#[test]
fn command_failure_maps_each_kind() {
    assert_eq!(
        command_failure(&PipelineCommand::SetState(PipelineState::Play)),
        ReconcileError::StateChangeFailed
    );
    assert_eq!(
        command_failure(&PipelineCommand::Seek(7)),
        ReconcileError::SeekFailed
    );
    assert_eq!(
        command_failure(&PipelineCommand::SetVolume(3)),
        ReconcileError::PropertySetFailed
    );
    assert_eq!(
        command_failure(&PipelineCommand::SetMute(false)),
        ReconcileError::PropertySetFailed
    );
}

#[test]
fn volume_icon_bands() {
    assert_eq!(volume_icon(VOLUME_UNIT, true), VolumeIcon::Muted);
    assert_eq!(volume_icon(0, false), VolumeIcon::Silent);
    assert_eq!(volume_icon(VOLUME_SILENT - 1, false), VolumeIcon::Silent);
    assert_eq!(volume_icon(VOLUME_SILENT, false), VolumeIcon::Quiet);
    assert_eq!(volume_icon(VOLUME_QUIET - 1, false), VolumeIcon::Quiet);
    assert_eq!(volume_icon(VOLUME_QUIET, false), VolumeIcon::Loud);
    assert_eq!(volume_icon(VOLUME_UNIT, false), VolumeIcon::Loud);
}
