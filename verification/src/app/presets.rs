//! The region presets of the capture application.
use vstd::prelude::*;
use crate::geometry::{Bgr, Rect};

verus! {

/// A region of the captured frame to watch, with the color it shows for a shiny.
#[derive(Clone, Copy, Debug, PartialEq, Eq, Structural)]
pub enum RoiPreset {
    /// The Switch's Pokemon summary view, where a teal color is set for shinies.
    PkmnSummaryView,
    /// A sample Fire Red Charmander image captured through OBS.
    TestImage,
}

impl RoiPreset {
    pub open spec fn spec_rect(self) -> Rect {
        Rect { x: 262, y: 111, width: 23, height: 15 }
    }

    pub open spec fn spec_target_color(self) -> Bgr {
        match self {
            RoiPreset::PkmnSummaryView => Bgr { b: 231, g: 231, r: 107 },
            RoiPreset::TestImage => Bgr { b: 229, g: 244, r: 119 },
        }
    }

    pub open spec fn spec_name(self) -> Seq<char> {
        match self {
            RoiPreset::PkmnSummaryView => "pkmn-summary-view"@,
            RoiPreset::TestImage => "test-image"@,
        }
    }

    /// The preset's rectangle in frame coordinates.
    pub fn rect(&self) -> (r: Rect)
        ensures
            r == self.spec_rect(),
    {
        let rect = match self {
            RoiPreset::PkmnSummaryView => Rect::new(262, 111, 23, 15),
            RoiPreset::TestImage => Rect::new(262, 111, 23, 15),
        };
        rect
    }

    /// The color, in blue, green, red order, that marks a shiny in the region.
    pub fn target_color(&self) -> (r: Bgr)
        ensures
            r == self.spec_target_color(),
    {
        match self {
            RoiPreset::PkmnSummaryView => Bgr::new(231, 231, 107),
            RoiPreset::TestImage => Bgr::new(229, 244, 119),
        }
    }

    /// The preset's name on the command line and in messages.
    pub fn name(&self) -> (r: &'static str)
        ensures
            r@ == self.spec_name(),
    {
        match self {
            RoiPreset::PkmnSummaryView => "pkmn-summary-view",
            RoiPreset::TestImage => "test-image",
        }
    }
}

} // verus!
