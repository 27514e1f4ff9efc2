use pi_frame::layout::GridLayout;
use pi_frame::plan::{
    CompositorPlan, Stage, compositor_plan, create_plan, gcd, overlay_plan, plan_image,
    plan_pattern, plan_rtsp,
};
use pi_frame::source::{FitSize, InstantiatedSource, RtspScale, SourceKind, SourceSpec};

fn rtsp_spec(url: &str, scale: RtspScale) -> SourceSpec {
    SourceSpec {
        description: String::from("camera"),
        kind: SourceKind::Rtsp { url: String::from(url), scale },
    }
}

#[test]
fn gcd_reduces_cell_aspect() {
    assert_eq!(gcd(640, 400), 80);
    assert_eq!(gcd(400, 640), 80);
    assert_eq!(gcd(7, 13), 1);
    assert_eq!(gcd(12, 0), 12);
}

#[test]
fn crop_mode_crops_to_reduced_aspect_with_no_bars() {
    // A 16:9 stream in a 640x400 (8:5) cell under Crop: the plan crops
    // to 8:5 before scaling and adds no letterbox bars.
    let plan = plan_rtsp(String::from("rtsp://cam/1"), 0, 640, 400, RtspScale::Crop);
    let crop = plan
        .stages
        .iter()
        .find_map(|s| match s {
            Stage::AspectRatioCrop { ratio_w, ratio_h } => Some((*ratio_w, *ratio_h)),
            _ => None,
        })
        .expect("crop stage present");
    assert_eq!(crop, (8, 5));
    // No padding stage, and the scaler does not add borders on output
    // caps of exactly 640x400.
    assert!(plan.stages.iter().all(|s| !matches!(s, Stage::PadToCell)));
    assert!(plan
        .stages
        .iter()
        .any(|s| matches!(s, Stage::ConvertScale { add_borders: true })));
    assert!(plan
        .stages
        .iter()
        .any(|s| matches!(s, Stage::CapsResolution { width: 640, height: 400 })));
}

#[test]
fn fit_mode_has_no_crop_and_scale_mode_fills() {
    let fit = plan_rtsp(String::from("rtsp://cam/1"), 0, 640, 400, RtspScale::Fit);
    assert!(fit
        .stages
        .iter()
        .all(|s| !matches!(s, Stage::AspectRatioCrop { .. })));
    assert!(fit
        .stages
        .iter()
        .any(|s| matches!(s, Stage::ConvertScale { add_borders: true })));

    let scale = plan_rtsp(String::from("rtsp://cam/1"), 0, 640, 400, RtspScale::Scale);
    assert!(scale
        .stages
        .iter()
        .all(|s| !matches!(s, Stage::AspectRatioCrop { .. })));
    assert!(scale
        .stages
        .iter()
        .any(|s| matches!(s, Stage::ConvertScale { add_borders: false })));
}

#[test]
fn rtsp_plan_carries_reserved_names_and_watchdog() {
    let plan = plan_rtsp(String::from("rtsp://cam/2"), 3, 640, 400, RtspScale::Fit);
    match &plan.stages[0] {
        Stage::RtspSource { url, name, latency_ms, drop_on_latency, udp_only } => {
            assert_eq!(url, "rtsp://cam/2");
            assert_eq!(name.as_slice(), b"rtsp_src_3");
            assert_eq!(*latency_ms, 2000);
            assert!(*drop_on_latency);
            assert!(*udp_only);
        }
        other => panic!("first stage is the source, got {:?}", other),
    }
    let watchdog = plan
        .stages
        .iter()
        .find_map(|s| match s {
            Stage::Watchdog { name, timeout_ms } => Some((name.clone(), *timeout_ms)),
            _ => None,
        })
        .expect("watchdog present");
    assert_eq!(watchdog.0.as_slice(), b"rtsp_src_3_watchdog");
    assert_eq!(watchdog.1, 30000);
}

#[test]
fn still_image_with_fit_size_prescales_then_pads() {
    // A still image with fit size (300, 200) in a 640x400 cell: the
    // image is pre-scaled to 300x200, then padded, and the output is
    // exactly 640x400.
    let plan = plan_image(String::from("/art/poster.png"), Some(FitSize { width: 300, height: 200 }), 640, 400);
    let pre = plan
        .stages
        .iter()
        .position(|s| matches!(s, Stage::PreScale { width: 300, height: 200 }))
        .expect("pre-scale present");
    let pad = plan
        .stages
        .iter()
        .position(|s| matches!(s, Stage::PadToCell))
        .expect("padding present");
    assert!(pre < pad, "pre-scale comes before padding");
    assert!(plan
        .stages
        .iter()
        .any(|s| matches!(s, Stage::CapsResolution { width: 640, height: 400 })));
    // Static content: at most one frame in flight, discard-oldest.
    match plan.stages.last().expect("plan not empty") {
        Stage::Queue { leaky, max_buffers, .. } => {
            assert!(*leaky);
            assert_eq!(*max_buffers, Some(1));
        }
        other => panic!("last stage is the bounded output queue, got {:?}", other),
    }
}

#[test]
fn still_image_without_fit_size_has_no_prescale() {
    let plan = plan_image(String::from("/art/poster.png"), None, 640, 400);
    assert!(plan.stages.iter().all(|s| !matches!(s, Stage::PreScale { .. })));
    assert!(plan.stages.iter().any(|s| matches!(s, Stage::PadToCell)));
}

#[test]
fn pattern_plan_is_bounded_and_normalised() {
    let plan = plan_pattern(String::from("smpte"), 320, 240);
    assert!(matches!(&plan.stages[0], Stage::TestSource { pattern } if pattern == "smpte"));
    assert!(plan
        .stages
        .iter()
        .any(|s| matches!(s, Stage::CapsResolution { width: 320, height: 240 })));
    match plan.stages.last().expect("plan not empty") {
        Stage::Queue { leaky, max_buffers, .. } => {
            assert!(*leaky);
            assert_eq!(*max_buffers, Some(1));
        }
        other => panic!("last stage is the bounded output queue, got {:?}", other),
    }
}

#[test]
fn create_plan_dispatches_on_kind() {
    let inst = InstantiatedSource {
        source: rtsp_spec("rtsp://cam/9", RtspScale::Crop),
        name: b"src_1".to_vec(),
        index: 1,
        width: 640,
        height: 400,
    };
    let plan = create_plan(&inst);
    assert!(matches!(&plan.stages[0], Stage::RtspSource { .. }));

    let inst_img = InstantiatedSource {
        source: SourceSpec {
            description: String::from("poster"),
            kind: SourceKind::StillImage { path: String::from("/art/p.png"), fit: None },
        },
        name: b"src_0".to_vec(),
        index: 0,
        width: 640,
        height: 400,
    };
    let plan_img = create_plan(&inst_img);
    assert!(matches!(&plan_img.stages[0], Stage::FileSource { .. }));

    let inst_pat = InstantiatedSource {
        source: SourceSpec {
            description: String::from("test"),
            kind: SourceKind::SyntheticPattern { pattern: String::from("snow") },
        },
        name: b"src_2".to_vec(),
        index: 2,
        width: 640,
        height: 400,
    };
    let plan_pat = create_plan(&inst_pat);
    assert!(matches!(&plan_pat.stages[0], Stage::TestSource { .. }));
}

#[test]
fn compositor_slots_follow_the_layout() {
    let layout = GridLayout { horizontal: 2, vertical: 2 };
    let plan: CompositorPlan =
        compositor_plan(1280, 800, layout, Some(String::from("%H:%M")));
    assert_eq!(plan.width, 1280);
    assert_eq!(plan.height, 800);
    assert_eq!(plan.framerate, 24);
    assert_eq!(plan.clock_format.as_deref(), Some("%H:%M"));
    assert_eq!(plan.slots.len(), 4);
    assert_eq!((plan.slots[3].x, plan.slots[3].y), (640, 400));
    let no_clock = compositor_plan(1280, 800, layout, None);
    assert_eq!(no_clock.clock_format, None);
}

#[test]
fn overlay_substitutes_snow_after_ten_seconds() {
    let plan = overlay_plan(String::from("Front door"));
    assert_eq!(plan.label, "Front door");
    assert_eq!(plan.timeout_ns, 10_000_000_000);
    assert!(plan.immediate_fallback);
    assert_eq!(plan.stale_pattern, "snow");
    assert_eq!(plan.stale_alpha_milli, 500);
}
