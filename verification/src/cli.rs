//! The command line options of the watcher.
use vstd::prelude::*;
use crate::presets::RoiPreset;

verus! {

/// The parsed command line.
#[derive(Clone, Copy, Debug, PartialEq, Eq, Structural)]
pub struct Cli {
    /// Camera index from which to capture image output.
    pub cam_index: Option<i32>,
    /// Enable debug mode.
    pub debug: bool,
    /// Show the region of interest window.
    pub show: bool,
    /// Display a window with the captured input on which a square can be
    /// drawn for a customized region of interest.
    pub trace: bool,
    /// Which region preset to use; defaults to `PkmnSummary`.
    pub roi_preset: Option<RoiPreset>,
}

} // verus!
