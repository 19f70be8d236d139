//! The regions of interest that the watcher knows.
use vstd::prelude::*;
use crate::geometry::{Bgr, Point};

verus! {

/// A pixel to watch and the color it takes on a shiny encounter.
#[derive(Clone, Copy, Debug, PartialEq, Eq, Structural)]
pub struct RegionOfInterest {
    pub point: Point,
    pub target_color: Bgr,
}

/// The built-in regions of interest.
#[derive(Clone, Copy, Debug, PartialEq, Eq, Structural)]
pub enum RoiPreset {
    /// The Switch's Pokemon summary view, where shinies get a teal color.
    PkmnSummaryView,
    /// A sample Fire Red Charmander image captured through OBS.
    TestImage,
}

impl RoiPreset {
    /// The region that each preset watches.
    pub open spec fn spec_get(self) -> RegionOfInterest {
        match self {
            RoiPreset::PkmnSummaryView => RegionOfInterest {
                point: Point { x: 265, y: 109 },
                target_color: Bgr { b: 231, g: 231, r: 107 },
            },
            RoiPreset::TestImage => RegionOfInterest {
                point: Point { x: 262, y: 111 },
                target_color: Bgr { b: 229, g: 244, r: 119 },
            },
        }
    }

    /// The preset's name on the command line and in messages.
    pub open spec fn spec_name(self) -> Seq<char> {
        match self {
            RoiPreset::PkmnSummaryView => "pkmn-summary-view"@,
            RoiPreset::TestImage => "test-image"@,
        }
    }

    /// The region that the preset watches.
    pub fn get(&self) -> (r: RegionOfInterest)
        ensures
            r == self.spec_get(),
    {
        match self {
            RoiPreset::PkmnSummaryView => RegionOfInterest {
                point: Point::new(265, 109),
                target_color: Bgr::new(231, 231, 107),
            },
            RoiPreset::TestImage => RegionOfInterest {
                point: Point::new(262, 111),
                target_color: Bgr::new(229, 244, 119),
            },
        }
    }

    /// The preset's name on the command line and in messages.
    pub fn name(&self) -> (r: &'static str)
        ensures
            r@ == self.spec_name(),
    {
        match self {
            RoiPreset::PkmnSummaryView => "pkmn-summary-view",
            RoiPreset::TestImage => "test-image",
        }
    }
}

} // verus!
