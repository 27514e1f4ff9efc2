use pi_frame::dispatch::{BusEvent, DispatchAction, StreamStatusKind};
use pi_frame::orchestrator::RestartDecision;
use pi_frame::ids::{rtsp_element_name, source_id, watchdog_element_name};
use pi_frame::layout::GridLayout;
use pi_frame::orchestrator::{RestartReason, WallState};
use pi_frame::source::{RtspScale, SourceKind, SourceSpec};

fn camera(n: u32) -> SourceSpec {
    SourceSpec {
        description: format!("camera {n}"),
        kind: SourceKind::Rtsp {
            url: format!("rtsp://cam/{n}"),
            scale: RtspScale::Fit,
        },
    }
}

fn wall_2x2() -> WallState {
    let specs = vec![camera(0), camera(1), camera(2), camera(3)];
    WallState::new(1280, 800, GridLayout { horizontal: 2, vertical: 2 }, specs)
        .expect("valid configuration")
}

#[test]
fn element_names_follow_the_reserved_convention() {
    assert_eq!(source_id(2), b"src_2".to_vec());
    assert_eq!(source_id(12), b"src_12".to_vec());
    assert_eq!(source_id(305), b"src_305".to_vec());
    assert_eq!(rtsp_element_name(0), b"rtsp_src_0".to_vec());
    assert_eq!(watchdog_element_name(7), b"rtsp_src_7_watchdog".to_vec());
}

#[test]
fn watchdog_error_restarts_its_source() {
    let wall = wall_2x2();
    let event = BusEvent::Error { origin: Some(b"rtsp_src_2_watchdog".to_vec()) };
    assert_eq!(
        wall.classify(&event),
        DispatchAction::Restart { index: 2, reason: RestartReason::Error }
    );
}

#[test]
fn source_error_restarts_its_source() {
    let wall = wall_2x2();
    let event = BusEvent::Error { origin: Some(b"rtsp_src_0".to_vec()) };
    assert_eq!(
        wall.classify(&event),
        DispatchAction::Restart { index: 0, reason: RestartReason::Error }
    );
}

#[test]
fn unmonitored_error_is_only_logged() {
    let wall = wall_2x2();
    let event = BusEvent::Error { origin: Some(b"compositor0".to_vec()) };
    assert_eq!(wall.classify(&event), DispatchAction::LogError);
    let anonymous = BusEvent::Error { origin: None };
    assert_eq!(wall.classify(&anonymous), DispatchAction::LogError);
}

#[test]
fn prefixed_error_for_unconfigured_source_is_contained() {
    let wall = wall_2x2();
    let event = BusEvent::Error { origin: Some(b"rtsp_src_9".to_vec()) };
    assert_eq!(wall.classify(&event), DispatchAction::UnknownSource);
}

#[test]
fn rtsp_timeout_signal_restarts_its_source() {
    let wall = wall_2x2();
    let event = BusEvent::ElementMessage {
        origin: Some(b"rtsp_src_1".to_vec()),
        structure_name: b"GstRTSPSrcTimeout".to_vec(),
    };
    assert_eq!(
        wall.classify(&event),
        DispatchAction::Restart { index: 1, reason: RestartReason::Timeout }
    );
}

#[test]
fn other_timeout_structures_are_logged() {
    let wall = wall_2x2();
    let event = BusEvent::ElementMessage {
        origin: Some(b"queue3".to_vec()),
        structure_name: b"GstQueueTimeout".to_vec(),
    };
    assert_eq!(wall.classify(&event), DispatchAction::LogTimeout);
    let unrelated = BusEvent::ElementMessage {
        origin: Some(b"queue3".to_vec()),
        structure_name: b"GstBinForwarded".to_vec(),
    };
    assert_eq!(wall.classify(&unrelated), DispatchAction::Ignore);
}

#[test]
fn state_changes_are_filtered_to_interesting_elements() {
    let wall = wall_2x2();
    let source_change = BusEvent::StateChanged {
        origin: Some(b"rtsp_src_3".to_vec()),
        old_was_null: false,
    };
    assert_eq!(wall.classify(&source_change), DispatchAction::LogStateChange);

    let top_change = BusEvent::StateChanged {
        origin: Some(b"pi-frame".to_vec()),
        old_was_null: false,
    };
    assert_eq!(wall.classify(&top_change), DispatchAction::LogStateChange);

    let initial = BusEvent::StateChanged {
        origin: Some(b"rtsp_src_3".to_vec()),
        old_was_null: true,
    };
    assert_eq!(wall.classify(&initial), DispatchAction::Ignore);

    let other = BusEvent::StateChanged {
        origin: Some(b"videoconvert5".to_vec()),
        old_was_null: false,
    };
    assert_eq!(wall.classify(&other), DispatchAction::Ignore);
}

#[test]
fn stream_status_bookkeeping_is_ignored() {
    let wall = wall_2x2();
    for status in [StreamStatusKind::Create, StreamStatusKind::Enter, StreamStatusKind::Leave] {
        assert_eq!(
            wall.classify(&BusEvent::StreamStatus { status }),
            DispatchAction::Ignore
        );
    }
    assert_eq!(
        wall.classify(&BusEvent::StreamStatus { status: StreamStatusKind::Other }),
        DispatchAction::LogStreamStatus
    );
}

#[test]
fn remaining_events_are_observability_only() {
    let wall = wall_2x2();
    assert_eq!(wall.classify(&BusEvent::EndOfStream), DispatchAction::LogEndOfStream);
    assert_eq!(wall.classify(&BusEvent::Qos), DispatchAction::Ignore);
    assert_eq!(wall.classify(&BusEvent::Latency), DispatchAction::Ignore);
    assert_eq!(wall.classify(&BusEvent::Progress), DispatchAction::LogProgress);
    assert_eq!(wall.classify(&BusEvent::Other), DispatchAction::LogOther);
}

#[test]
fn classification_drives_exactly_one_restart_under_racing_events() {
    // An error and a timeout race for the same stalled source: both
    // classify to source 2, but only the first proceeds.
    let mut wall = wall_2x2();
    let error = BusEvent::Error { origin: Some(b"rtsp_src_2_watchdog".to_vec()) };
    let timeout = BusEvent::ElementMessage {
        origin: Some(b"rtsp_src_2".to_vec()),
        structure_name: b"GstRTSPSrcTimeout".to_vec(),
    };
    let a1 = wall.classify(&error);
    let a2 = wall.classify(&timeout);
    assert_eq!(a1, DispatchAction::Restart { index: 2, reason: RestartReason::Error });
    assert_eq!(a2, DispatchAction::Restart { index: 2, reason: RestartReason::Timeout });

    assert_eq!(wall.request_restart(2, RestartReason::Error), RestartDecision::Proceed);
    assert_eq!(
        wall.request_restart(2, RestartReason::Timeout),
        RestartDecision::ScheduleDeferred
    );
}
