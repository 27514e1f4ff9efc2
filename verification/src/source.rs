//! Declared sources and their instantiation.
//!
//! A `SourceSpec` is the immutable description of one source as
//! configuration declares it: a text label plus exactly one kind (an RTSP
//! stream with a scale mode, a synthetic test pattern, or a still image
//! with an optional explicit fit size).  An `InstantiatedSource` binds a
//! spec to a cell: a stable id, the cell index, and the target resolution
//! fixed at creation from the layout engine's output.

use vstd::prelude::*;
use crate::ids::spec_source_id;
use crate::layout::GridLayout;

verus! {

/// How an RTSP stream is fitted to its cell.
#[derive(Clone, Copy, Debug, PartialEq, Eq, Structural)]
pub enum RtspScale {
    /// Pad to the cell's aspect: bars on the sides, no crop.
    Fit,
    /// Crop the stream to the cell's aspect before scaling: no bars.
    Crop,
    /// Scale anisotropically to fill the cell, ignoring the stream's aspect.
    Scale,
}

/// An explicit pre-scale size for a still image: both dimensions or
/// neither, never one alone.
#[derive(Clone, Copy, Debug, PartialEq, Eq, Structural)]
pub struct FitSize {
    pub width: usize,
    pub height: usize,
}

/// The kind of a source: exactly one variant.
#[derive(Clone, Debug, PartialEq)]
pub enum SourceKind {
    /// A network camera stream.
    Rtsp { url: String, scale: RtspScale },
    /// A synthetic test pattern, by pattern name.
    SyntheticPattern { pattern: String },
    /// A still image from a resolved path, shown as a one-frame stream.
    StillImage { path: String, fit: Option<FitSize> },
}

/// One declared source: label text plus its kind.
#[derive(Clone, Debug, PartialEq)]
pub struct SourceSpec {
    pub description: String,
    pub kind: SourceKind,
}

/// Configuration errors: fatal at startup, the wall is never built from a
/// configuration that carries one.
#[derive(Clone, Copy, Debug, PartialEq, Eq, Structural)]
pub enum ConfigError {
    /// A grid count of zero, or a cell count past the machine's limits.
    BadGrid,
    /// More sources than the grid has cells.
    TooManySources,
    /// The display is smaller than the grid, leaving zero-size cells.
    DisplayTooSmall,
    /// A still image's explicit fit size named one dimension without the
    /// other.
    FitSizeIncomplete,
}

/// Builds a still-image kind from the raw optional dimensions that
/// configuration carries, enforcing that an explicit fit size is a
/// complete pair: both dimensions or neither.
pub fn still_image_kind(path: String, width: Option<usize>, height: Option<usize>) -> (r: Result<
    SourceKind,
    ConfigError,
>)
    ensures
        match r {
            Ok(kind) => {
                &&& (width is Some) == (height is Some)
                &&& kind matches SourceKind::StillImage { path: p, fit } && p == path && fit
                    == match (width, height) {
                    (Some(w), Some(h)) => Some(FitSize { width: w, height: h }),
                    _ => None::<FitSize>,
                }
            },
            Err(e) => e == ConfigError::FitSizeIncomplete && (width is Some) != (height is Some),
        },
{
    match (width, height) {
        (Some(w), Some(h)) => Ok(
            SourceKind::StillImage { path, fit: Some(FitSize { width: w, height: h }) },
        ),
        (None, None) => Ok(SourceKind::StillImage { path, fit: None }),
        _ => Err(ConfigError::FitSizeIncomplete),
    }
}

/// The display half of the configuration: the display device to drive,
/// the grid to subdivide it into, and the optional clock overlay's time
/// format.
#[derive(Clone, Debug, PartialEq)]
pub struct DisplaySettings {
    pub device: String,
    pub layout: GridLayout,
    pub time_format: Option<String>,
}

/// The typed configuration shape the loader hands over: the display
/// settings and the ordered list of declared sources (source `i` goes
/// to cell `i`).
#[derive(Clone, Debug, PartialEq)]
pub struct Config {
    pub display: DisplaySettings,
    pub sources: Vec<SourceSpec>,
}

/// A source bound to a running subgraph: the spec, the stable id, the
/// cell index, and the target resolution fixed at creation.  Restarts
/// replace the subgraph but never this record.
#[derive(Clone, Debug)]
pub struct InstantiatedSource {
    pub source: SourceSpec,
    pub name: Vec<u8>,
    pub index: usize,
    pub width: usize,
    pub height: usize,
}

impl InstantiatedSource {
    /// What instantiation owes for cell `index` of a wall `display_w` by
    /// `display_h` with this grid: the stable id embeds the index, and
    /// the target resolution is the layout engine's cell size.
    pub open spec fn well_formed(
        self,
        index: int,
        display_w: int,
        display_h: int,
        layout: GridLayout,
    ) -> bool {
        &&& self.index == index
        &&& self.name@ == spec_source_id(index as nat)
        &&& self.width == crate::layout::spec_cell_width(display_w, layout)
        &&& self.height == crate::layout::spec_cell_height(display_h, layout)
    }
}

} // verus!
