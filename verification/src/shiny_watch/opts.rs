//! The watcher's settings.
use vstd::prelude::*;
use super::presets::{RegionOfInterest, RoiPreset};

verus! {

/// The settings the watcher runs with.
#[derive(Clone, Copy, Debug, PartialEq, Eq, Structural)]
pub struct Opts {
    pub debug: bool,
    pub camera_index: i32,
    /// Show the captured frame in a window.
    pub show: bool,
    /// Let clicks on the window mark a point, which gets a crosshair too.
    pub trace: bool,
    /// The region whose pixel is tested.
    pub roi: RoiPreset,
}

impl Opts {
    /// The watched region: the one of the chosen preset.
    pub fn region(&self) -> (r: RegionOfInterest)
        ensures
            r == self.roi.spec_get(),
    {
        self.roi.get()
    }
}

} // verus!
