//! Typed subgraph construction.
//!
//! Instead of templating a textual chain description, each source kind is
//! turned into a structured plan: an ordered list of stages, each typed
//! by its role.  The surrounding program realises a plan in the media
//! runtime; everything the runtime needs to build the chain — element
//! roles, queue bounds, the watchdog interval, the normalised output
//! caps — is pinned down here.  Every plan ends in caps that normalise
//! the output to exactly the cell's resolution with 1:1 pixel aspect.

use vstd::prelude::*;
use crate::ids::{spec_rtsp_element_name, spec_watchdog_element_name, rtsp_element_name,
    watchdog_element_name};
use crate::layout::{CellGeometry, GridLayout, compute_layout, is_cell_geometry};
use crate::source::{FitSize, InstantiatedSource, RtspScale, SourceKind};

verus! {

/// Milliseconds without an output frame after which an RTSP source's
/// watchdog raises its timeout signal.
pub const WATCHDOG_TIMEOUT_MS: u64 = 30000;

/// Network jitter buffer of the RTSP source, in milliseconds.
pub const RTSP_LATENCY_MS: u64 = 2000;

/// Bound of the queue that sits in front of the scaler, in nanoseconds.
pub const SCALE_QUEUE_MAX_NS: u64 = 2000000000;

/// One stage of a source subgraph, typed by its role in the chain.
#[derive(Clone, Debug, PartialEq)]
pub enum Stage {
    /// Produces the RTSP network stream; carries the reserved element
    /// name that failure events are traced back by.
    RtspSource { url: String, name: Vec<u8>, latency_ms: u64, drop_on_latency: bool, udp_only: bool },
    /// Reads a still image from a resolved path.
    FileSource { path: String },
    /// Produces a synthetic test pattern.
    TestSource { pattern: String },
    /// Decouples neighbours; `leaky` discards oldest when full, and the
    /// optional bounds cap the frames or nanoseconds held.
    Queue { leaky: bool, max_buffers: Option<u64>, max_time_ns: Option<u64> },
    /// Extracts the H.264 stream from network packets.
    DepayH264,
    /// Parses the raw H.264 stream.
    ParseH264,
    /// Hardware H.264 decode.
    DecodeH264,
    /// Raises a timeout signal when no frame passes for `timeout_ms`;
    /// carries the suffixed element name events are traced back by.
    Watchdog { name: Vec<u8>, timeout_ms: u64 },
    /// Crops to the reduced target aspect `ratio_w : ratio_h` before any
    /// scaling, so no bars are added.
    AspectRatioCrop { ratio_w: usize, ratio_h: usize },
    /// Decodes an arbitrary container/codec (for still images).
    DecodeAny,
    /// Pre-scales a still image to its explicit fit size before padding.
    PreScale { width: usize, height: usize },
    /// Repeats a single decoded frame as a stream.
    ImageFreeze,
    /// Limits the stream to `fps` frames per second.
    RateLimit { fps: u64 },
    /// Pads (letterboxes) to the cell, preserving the image's aspect.
    PadToCell,
    /// Scales to the downstream caps.
    Scale,
    /// Converts colour format to the downstream caps.
    Convert,
    /// Scales and converts in one stage; `add_borders` false fills the
    /// cell anisotropically instead of padding.
    ConvertScale { add_borders: bool },
    /// Normalises the output: exactly `width` by `height`, 1:1 pixel
    /// aspect.
    CapsResolution { width: usize, height: usize },
}

/// The mathematical model of a stage: strings as character sequences,
/// names as byte sequences.
pub enum StageView {
    RtspSource { url: Seq<char>, name: Seq<u8>, latency_ms: u64, drop_on_latency: bool, udp_only: bool },
    FileSource { path: Seq<char> },
    TestSource { pattern: Seq<char> },
    Queue { leaky: bool, max_buffers: Option<u64>, max_time_ns: Option<u64> },
    DepayH264,
    ParseH264,
    DecodeH264,
    Watchdog { name: Seq<u8>, timeout_ms: u64 },
    AspectRatioCrop { ratio_w: usize, ratio_h: usize },
    DecodeAny,
    PreScale { width: usize, height: usize },
    ImageFreeze,
    RateLimit { fps: u64 },
    PadToCell,
    Scale,
    Convert,
    ConvertScale { add_borders: bool },
    CapsResolution { width: usize, height: usize },
}

impl View for Stage {
    type V = StageView;

    open spec fn view(&self) -> StageView {
        match self {
            Stage::RtspSource { url, name, latency_ms, drop_on_latency, udp_only } => (
            StageView::RtspSource {
                url: url@,
                name: name@,
                latency_ms: *latency_ms,
                drop_on_latency: *drop_on_latency,
                udp_only: *udp_only,
            }),
            Stage::FileSource { path } => StageView::FileSource { path: path@ },
            Stage::TestSource { pattern } => StageView::TestSource { pattern: pattern@ },
            Stage::Queue { leaky, max_buffers, max_time_ns } => (StageView::Queue {
                leaky: *leaky,
                max_buffers: *max_buffers,
                max_time_ns: *max_time_ns,
            }),
            Stage::DepayH264 => StageView::DepayH264,
            Stage::ParseH264 => StageView::ParseH264,
            Stage::DecodeH264 => StageView::DecodeH264,
            Stage::Watchdog { name, timeout_ms } => (StageView::Watchdog {
                name: name@,
                timeout_ms: *timeout_ms,
            }),
            Stage::AspectRatioCrop { ratio_w, ratio_h } => (StageView::AspectRatioCrop {
                ratio_w: *ratio_w,
                ratio_h: *ratio_h,
            }),
            Stage::DecodeAny => StageView::DecodeAny,
            Stage::PreScale { width, height } => (StageView::PreScale {
                width: *width,
                height: *height,
            }),
            Stage::ImageFreeze => StageView::ImageFreeze,
            Stage::RateLimit { fps } => StageView::RateLimit { fps: *fps },
            Stage::PadToCell => StageView::PadToCell,
            Stage::Scale => StageView::Scale,
            Stage::Convert => StageView::Convert,
            Stage::ConvertScale { add_borders } => (StageView::ConvertScale {
                add_borders: *add_borders,
            }),
            Stage::CapsResolution { width, height } => (StageView::CapsResolution {
                width: *width,
                height: *height,
            }),
        }
    }
}

/// A concrete, linkable chain for one source: its stages in order, first
/// to last.  The last stage's output is the subgraph's single output
/// port.
#[derive(Clone, Debug, PartialEq)]
pub struct SubgraphPlan {
    pub stages: Vec<Stage>,
}

impl View for SubgraphPlan {
    type V = Seq<StageView>;

    open spec fn view(&self) -> Seq<StageView> {
        self.stages@.map_values(|s: Stage| s@)
    }
}

/// Greatest common divisor.
pub open spec fn spec_gcd(a: nat, b: nat) -> nat
    decreases b,
{
    if b == 0 {
        a
    } else {
        spec_gcd(b, a % b)
    }
}

/// The gcd of a positive number with anything is positive.
pub proof fn lemma_gcd_pos(a: nat, b: nat)
    requires
        1 <= a,
    ensures
        1 <= spec_gcd(a, b),
    decreases b,
{
    if b != 0 {
        lemma_gcd_pos(b, a % b);
    }
}

/// Euclid's algorithm.
pub fn gcd(a: usize, b: usize) -> (g: usize)
    ensures
        g == spec_gcd(a as nat, b as nat),
{
    let mut x: usize = a;
    let mut y: usize = b;
    while y != 0
        invariant
            spec_gcd(x as nat, y as nat) == spec_gcd(a as nat, b as nat),
        decreases y,
    {
        let r: usize = x % y;
        x = y;
        y = r;
    }
    x
}

/// The target aspect of a cell, as a reduced fraction.
pub open spec fn spec_reduced_aspect(width: usize, height: usize) -> (int, int) {
    (
        width as int / spec_gcd(width as nat, height as nat) as int,
        height as int / spec_gcd(width as nat, height as nat) as int,
    )
}

/// The full stage list of an RTSP source's subgraph for cell `index`,
/// normalised to `width` by `height`: the named source element, leaky
/// queues around depayload and decode, the staleness watchdog on the
/// decode stage, the configured scale mode's treatment, and the
/// normalising caps before the output queue.
pub open spec fn spec_rtsp_plan(
    url: Seq<char>,
    index: nat,
    width: usize,
    height: usize,
    scale: RtspScale,
) -> Seq<StageView> {
    let crop: Seq<StageView> = if scale is Crop {
        seq![
            StageView::AspectRatioCrop {
                ratio_w: spec_reduced_aspect(width, height).0 as usize,
                ratio_h: spec_reduced_aspect(width, height).1 as usize,
            },
        ]
    } else {
        Seq::empty()
    };
    seq![
        StageView::RtspSource {
            url,
            name: spec_rtsp_element_name(index),
            latency_ms: RTSP_LATENCY_MS,
            drop_on_latency: true,
            udp_only: true,
        },
        StageView::Queue { leaky: true, max_buffers: None, max_time_ns: None },
        StageView::DepayH264,
        StageView::ParseH264,
        StageView::Queue { leaky: true, max_buffers: None, max_time_ns: None },
        StageView::DecodeH264,
        StageView::Watchdog {
            name: spec_watchdog_element_name(index),
            timeout_ms: WATCHDOG_TIMEOUT_MS,
        },
    ] + crop + seq![
        StageView::Queue { leaky: true, max_buffers: None, max_time_ns: Some(SCALE_QUEUE_MAX_NS) },
        StageView::ConvertScale { add_borders: !(scale is Scale) },
        StageView::CapsResolution { width, height },
        StageView::Queue { leaky: false, max_buffers: None, max_time_ns: None },
    ]
}

/// Plans an RTSP source's subgraph.
pub fn plan_rtsp(url: String, index: usize, width: usize, height: usize, scale: RtspScale) -> (r:
    SubgraphPlan)
    requires
        1 <= width,
        1 <= height,
    ensures
        r@ == spec_rtsp_plan(url@, index as nat, width, height, scale),
{
    let mut stages: Vec<Stage> = Vec::new();
    stages.push(
        Stage::RtspSource {
            url,
            name: rtsp_element_name(index),
            latency_ms: RTSP_LATENCY_MS,
            drop_on_latency: true,
            udp_only: true,
        },
    );
    stages.push(Stage::Queue { leaky: true, max_buffers: None, max_time_ns: None });
    stages.push(Stage::DepayH264);
    stages.push(Stage::ParseH264);
    stages.push(Stage::Queue { leaky: true, max_buffers: None, max_time_ns: None });
    stages.push(Stage::DecodeH264);
    stages.push(
        Stage::Watchdog { name: watchdog_element_name(index), timeout_ms: WATCHDOG_TIMEOUT_MS },
    );
    if let RtspScale::Crop = scale {
        proof {
            lemma_gcd_pos(width as nat, height as nat);
            vstd::arithmetic::div_mod::lemma_div_nonincreasing(
                width as int,
                spec_gcd(width as nat, height as nat) as int,
            );
            vstd::arithmetic::div_mod::lemma_div_nonincreasing(
                height as int,
                spec_gcd(width as nat, height as nat) as int,
            );
        }
        let g: usize = gcd(width, height);
        stages.push(Stage::AspectRatioCrop { ratio_w: width / g, ratio_h: height / g });
    }
    stages.push(
        Stage::Queue { leaky: true, max_buffers: None, max_time_ns: Some(SCALE_QUEUE_MAX_NS) },
    );
    let add_borders: bool = match scale {
        RtspScale::Scale => false,
        _ => true,
    };
    stages.push(Stage::ConvertScale { add_borders });
    stages.push(Stage::CapsResolution { width, height });
    stages.push(Stage::Queue { leaky: false, max_buffers: None, max_time_ns: None });
    let r: SubgraphPlan = SubgraphPlan { stages };
    proof {
        assert(r@ =~= spec_rtsp_plan(url@, index as nat, width, height, scale));
    }
    r
}

/// The full stage list of a still-image subgraph: decode, the optional
/// explicit pre-scale, a frozen one-frame stream at one frame per
/// second, padding to the cell, then the normalising caps and a
/// single-frame leaky output queue (content is static, so at most one
/// frame is ever held in flight).
pub open spec fn spec_image_plan(
    path: Seq<char>,
    fit: Option<FitSize>,
    width: usize,
    height: usize,
) -> Seq<StageView> {
    let pre: Seq<StageView> = match fit {
        Some(f) => seq![StageView::PreScale { width: f.width, height: f.height }],
        None => Seq::empty(),
    };
    seq![StageView::FileSource { path }, StageView::DecodeAny] + pre + seq![
        StageView::ImageFreeze,
        StageView::RateLimit { fps: 1 },
        StageView::PadToCell,
        StageView::Scale,
        StageView::Convert,
        StageView::CapsResolution { width, height },
        StageView::Queue { leaky: true, max_buffers: Some(1), max_time_ns: None },
    ]
}

/// Plans a still-image source's subgraph.
pub fn plan_image(path: String, fit: Option<FitSize>, width: usize, height: usize) -> (r:
    SubgraphPlan)
    ensures
        r@ == spec_image_plan(path@, fit, width, height),
{
    let mut stages: Vec<Stage> = Vec::new();
    stages.push(Stage::FileSource { path });
    stages.push(Stage::DecodeAny);
    if let Some(f) = fit {
        stages.push(Stage::PreScale { width: f.width, height: f.height });
    }
    stages.push(Stage::ImageFreeze);
    stages.push(Stage::RateLimit { fps: 1 });
    stages.push(Stage::PadToCell);
    stages.push(Stage::Scale);
    stages.push(Stage::Convert);
    stages.push(Stage::CapsResolution { width, height });
    stages.push(Stage::Queue { leaky: true, max_buffers: Some(1), max_time_ns: None });
    let r: SubgraphPlan = SubgraphPlan { stages };
    proof {
        assert(r@ =~= spec_image_plan(path@, fit, width, height));
    }
    r
}

/// The full stage list of a synthetic test-pattern subgraph: the pattern
/// source, scaled and converted to the normalising caps, with the same
/// single-frame leaky output queue as a still image.
pub open spec fn spec_pattern_plan(pattern: Seq<char>, width: usize, height: usize) -> Seq<
    StageView,
> {
    seq![
        StageView::TestSource { pattern },
        StageView::Queue { leaky: false, max_buffers: None, max_time_ns: None },
        StageView::Scale,
        StageView::Convert,
        StageView::CapsResolution { width, height },
        StageView::Queue { leaky: true, max_buffers: Some(1), max_time_ns: None },
    ]
}

/// Plans a synthetic test-pattern source's subgraph.
pub fn plan_pattern(pattern: String, width: usize, height: usize) -> (r: SubgraphPlan)
    ensures
        r@ == spec_pattern_plan(pattern@, width, height),
{
    let mut stages: Vec<Stage> = Vec::new();
    stages.push(Stage::TestSource { pattern });
    stages.push(Stage::Queue { leaky: false, max_buffers: None, max_time_ns: None });
    stages.push(Stage::Scale);
    stages.push(Stage::Convert);
    stages.push(Stage::CapsResolution { width, height });
    stages.push(Stage::Queue { leaky: true, max_buffers: Some(1), max_time_ns: None });
    let r: SubgraphPlan = SubgraphPlan { stages };
    proof {
        assert(r@ =~= spec_pattern_plan(pattern@, width, height));
    }
    r
}

/// The plan owed for an instantiated source, by its kind.
pub open spec fn spec_source_plan(inst: InstantiatedSource) -> Seq<StageView> {
    match inst.source.kind {
        SourceKind::Rtsp { url, scale } => spec_rtsp_plan(
            url@,
            inst.index as nat,
            inst.width,
            inst.height,
            scale,
        ),
        SourceKind::StillImage { path, fit } => spec_image_plan(
            path@,
            fit,
            inst.width,
            inst.height,
        ),
        SourceKind::SyntheticPattern { pattern } => spec_pattern_plan(
            pattern@,
            inst.width,
            inst.height,
        ),
    }
}

/// Plans the subgraph of an instantiated source, dispatching on its
/// kind: the uniform factory contract.  Deterministic in the source
/// record, so every restart of the same source rebuilds the same chain.
pub fn create_plan(inst: &InstantiatedSource) -> (r: SubgraphPlan)
    requires
        1 <= inst.width,
        1 <= inst.height,
    ensures
        r@ == spec_source_plan(*inst),
{
    match &inst.source.kind {
        SourceKind::Rtsp { url, scale } => plan_rtsp(
            url.clone(),
            inst.index,
            inst.width,
            inst.height,
            *scale,
        ),
        SourceKind::StillImage { path, fit } => plan_image(
            path.clone(),
            *fit,
            inst.width,
            inst.height,
        ),
        SourceKind::SyntheticPattern { pattern } => plan_pattern(
            pattern.clone(),
            inst.width,
            inst.height,
        ),
    }
}

/// How the compositor and its per-cell input slots are to be set up: the
/// display-sized output at a fixed frame rate, the optional clock
/// overlay, and one slot per cell placed at that cell's geometry.
#[derive(Clone, Debug, PartialEq)]
pub struct CompositorPlan {
    pub width: usize,
    pub height: usize,
    pub framerate: u64,
    pub clock_format: Option<String>,
    pub slots: Vec<CellGeometry>,
}

/// Frames per second the compositor renders at.
pub const COMPOSITOR_FPS: u64 = 24;

/// Plans the compositor: one input slot per cell, each placed and sized
/// by the layout engine, plus the optional clock overlay.
pub fn compositor_plan(
    display_w: usize,
    display_h: usize,
    layout: GridLayout,
    clock_format: Option<String>,
) -> (r: CompositorPlan)
    requires
        layout.valid(),
    ensures
        r.width == display_w,
        r.height == display_h,
        r.framerate == COMPOSITOR_FPS,
        r.clock_format == clock_format,
        r.slots@.len() == layout.cell_count(),
        forall|n: int|
            0 <= n < r.slots@.len() ==> is_cell_geometry(
                r.slots@[n],
                n,
                display_w as int,
                display_h as int,
                layout,
            ),
{
    let (slots, _cell_w, _cell_h) = compute_layout(display_w, display_h, layout);
    CompositorPlan {
        width: display_w,
        height: display_h,
        framerate: COMPOSITOR_FPS,
        clock_format,
        slots,
    }
}

/// Nanoseconds without a fresh frame after which the fallback overlay
/// substitutes its synthetic stale indicator.
pub const FALLBACK_TIMEOUT_NS: u64 = 10000000000;

/// Opacity of the stale indicator, in thousandths.
pub const STALE_ALPHA_MILLI: u64 = 500;

/// The per-source fallback overlay: a switch that forwards the live
/// stream while fresh frames keep arriving and substitutes a
/// half-transparent synthetic snow pattern immediately (no crossfade)
/// once `timeout_ns` elapses without one, with the source's label drawn
/// on top.  Independent of the restart protocol, which still runs on
/// the underlying error or timeout signal.
#[derive(Clone, Debug, PartialEq)]
pub struct OverlayPlan {
    pub label: String,
    pub timeout_ns: u64,
    pub immediate_fallback: bool,
    pub stale_pattern: String,
    pub stale_alpha_milli: u64,
}

/// Plans the fallback overlay wrapping one source's output.
pub fn overlay_plan(label: String) -> (r: OverlayPlan)
    ensures
        r.label == label,
        r.timeout_ns == FALLBACK_TIMEOUT_NS,
        r.immediate_fallback,
        r.stale_pattern@ == "snow"@,
        r.stale_alpha_milli == STALE_ALPHA_MILLI,
{
    let pattern: String = snow_pattern_name();
    OverlayPlan {
        label,
        timeout_ns: FALLBACK_TIMEOUT_NS,
        immediate_fallback: true,
        stale_pattern: pattern,
        stale_alpha_milli: STALE_ALPHA_MILLI,
    }
}

/// The runtime's name for the snow test pattern.
fn snow_pattern_name() -> (r: String)
    ensures
        r@ == "snow"@,
{
    let s: &str = "snow";
    s.to_owned()
}

} // verus!
