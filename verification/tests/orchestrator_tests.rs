use pi_frame::layout::GridLayout;
use pi_frame::orchestrator::{
    RestartDecision, RestartReason, StepOutcome, WallState,
};
use pi_frame::source::{ConfigError, RtspScale, SourceKind, SourceSpec};

fn camera(n: u32) -> SourceSpec {
    SourceSpec {
        description: format!("camera {n}"),
        kind: SourceKind::Rtsp {
            url: format!("rtsp://cam/{n}"),
            scale: RtspScale::Fit,
        },
    }
}

fn wall_2x2() -> WallState {
    let specs = vec![camera(0), camera(1), camera(2), camera(3)];
    WallState::new(1280, 800, GridLayout { horizontal: 2, vertical: 2 }, specs)
        .expect("valid configuration")
}

#[test]
fn new_wall_instantiates_each_cell() {
    let wall = wall_2x2();
    assert_eq!(wall.sources.len(), 4);
    for (i, st) in wall.sources.iter().enumerate() {
        assert_eq!(st.instantiated.index, i);
        assert_eq!(st.instantiated.name, format!("src_{i}").into_bytes());
        assert_eq!(st.instantiated.width, 640);
        assert_eq!(st.instantiated.height, 400);
        assert!(st.attached);
        assert!(!st.deferred_pending);
    }
}

#[test]
fn bad_configurations_are_rejected() {
    let r = WallState::new(1280, 800, GridLayout { horizontal: 0, vertical: 2 }, vec![]);
    assert_eq!(r.err(), Some(ConfigError::BadGrid));

    let r = WallState::new(1, 1, GridLayout { horizontal: 2, vertical: 2 }, vec![]);
    assert_eq!(r.err(), Some(ConfigError::DisplayTooSmall));

    let five = vec![camera(0), camera(1), camera(2), camera(3), camera(4)];
    let r = WallState::new(1280, 800, GridLayout { horizontal: 2, vertical: 2 }, five);
    assert_eq!(r.err(), Some(ConfigError::TooManySources));
}

#[test]
fn successful_restart_preserves_the_slot() {
    let mut wall = wall_2x2();
    let before = wall.sources[1].instantiated.clone();

    assert_eq!(wall.request_restart(1, RestartReason::Error), RestartDecision::Proceed);
    assert_eq!(wall.on_detached(1, true), StepOutcome::Continue);
    assert!(!wall.sources[1].attached, "slot empty while rebuilding");
    assert_eq!(wall.on_built(1, true), StepOutcome::Continue);
    assert_eq!(wall.on_attached(1, true), StepOutcome::Completed);

    let after = &wall.sources[1].instantiated;
    assert_eq!(after.index, before.index);
    assert_eq!(after.name, before.name);
    assert_eq!(after.width, before.width);
    assert_eq!(after.height, before.height);
    assert!(wall.sources[1].attached);
    // Siblings untouched throughout.
    for i in [0usize, 2, 3] {
        assert!(wall.sources[i].attached);
        assert_eq!(wall.sources[i].instantiated.index, i);
    }
}

#[test]
fn fatal_rebuild_clears_guard_and_leaves_slot_detached() {
    let mut wall = wall_2x2();
    assert_eq!(wall.request_restart(2, RestartReason::Timeout), RestartDecision::Proceed);
    assert_eq!(wall.on_detached(2, true), StepOutcome::Continue);
    assert_eq!(wall.on_built(2, false), StepOutcome::Aborted);
    // The guard is cleared, not stuck: a later event may restart again.
    assert!(!wall.sources[2].attached, "cell left dark, not double-attached");
    assert_eq!(wall.request_restart(2, RestartReason::Timeout), RestartDecision::Proceed);
    // With nothing attached the unlink fails: an inconsistent-graph
    // condition, aborted without retry.
    assert_eq!(wall.on_detached(2, false), StepOutcome::Aborted);
}

#[test]
fn detach_failure_aborts_the_attempt() {
    let mut wall = wall_2x2();
    assert_eq!(wall.request_restart(0, RestartReason::Error), RestartDecision::Proceed);
    assert_eq!(wall.on_detached(0, false), StepOutcome::Aborted);
    // Guard released; the subgraph was never unlinked.
    assert!(wall.sources[0].attached);
    assert_eq!(wall.request_restart(0, RestartReason::Error), RestartDecision::Proceed);
}

#[test]
fn double_error_yields_single_rebuild_and_one_deferred_recheck() {
    // Rapid double error for source id "src_2" within the same restart
    // window: the second request does not start a second rebuild, it
    // schedules exactly one deferred re-check.
    let mut wall = wall_2x2();
    assert_eq!(wall.request_restart(2, RestartReason::Error), RestartDecision::Proceed);
    assert_eq!(
        wall.request_restart(2, RestartReason::Error),
        RestartDecision::ScheduleDeferred
    );
    // A third racing event in the same window is absorbed outright.
    assert_eq!(wall.request_restart(2, RestartReason::Timeout), RestartDecision::Dropped);

    // The single in-flight restart runs to completion.
    assert_eq!(wall.on_detached(2, true), StepOutcome::Continue);
    assert_eq!(wall.on_built(2, true), StepOutcome::Continue);
    assert_eq!(wall.on_attached(2, true), StepOutcome::Completed);
    assert!(wall.sources[2].attached);
    assert_eq!(wall.sources[2].instantiated.index, 2);

    // The one deferred re-check now runs; it finds the guard clear and
    // performs one more full restart, and schedules nothing further.
    assert_eq!(wall.request_restart(2, RestartReason::Deferred), RestartDecision::Proceed);
    assert!(!wall.sources[2].deferred_pending);
    assert_eq!(wall.on_detached(2, true), StepOutcome::Continue);
    assert_eq!(wall.on_built(2, true), StepOutcome::Continue);
    assert_eq!(wall.on_attached(2, true), StepOutcome::Completed);

    // Exactly one subgraph attached to slot 2 at the end.
    assert!(wall.sources[2].attached);
    assert_eq!(wall.sources[2].instantiated.name, b"src_2".to_vec());
}

#[test]
fn deferred_recheck_never_chains() {
    let mut wall = wall_2x2();
    assert_eq!(wall.request_restart(3, RestartReason::Error), RestartDecision::Proceed);
    // The deferred re-check arrives while the restart is still in
    // flight (it was scheduled by an earlier window): absorbed, and no
    // further re-check is scheduled by it.
    assert_eq!(wall.request_restart(3, RestartReason::Deferred), RestartDecision::Dropped);
    assert!(!wall.sources[3].deferred_pending);
}

#[test]
fn steps_out_of_turn_change_nothing() {
    let mut wall = wall_2x2();
    assert_eq!(wall.on_detached(1, true), StepOutcome::OutOfTurn);
    assert_eq!(wall.on_built(1, true), StepOutcome::OutOfTurn);
    assert_eq!(wall.on_attached(1, true), StepOutcome::OutOfTurn);
    assert!(wall.sources[1].attached);

    assert_eq!(wall.request_restart(9, RestartReason::Error), RestartDecision::UnknownSource);
    assert_eq!(wall.on_detached(9, true), StepOutcome::UnknownSource);
}

#[test]
fn deferred_destroy_outcome_is_only_logged() {
    let wall = wall_2x2();
    assert!(!wall.on_deferred_destroy(0, true));
    assert!(wall.on_deferred_destroy(0, false));
}

#[test]
fn attach_failure_clears_guard_and_leaves_cell_dark() {
    let mut wall = wall_2x2();
    assert_eq!(wall.request_restart(1, RestartReason::Error), RestartDecision::Proceed);
    assert_eq!(wall.on_detached(1, true), StepOutcome::Continue);
    assert_eq!(wall.on_built(1, true), StepOutcome::Continue);
    assert_eq!(wall.on_attached(1, false), StepOutcome::Aborted);
    assert!(!wall.sources[1].attached);
    assert_eq!(wall.request_restart(1, RestartReason::Error), RestartDecision::Proceed);
}
