//! The region presets that the command line offers.
use vstd::prelude::*;
use crate::geometry::Rect;

verus! {

/// A region of the captured frame to watch.
#[derive(Clone, Copy, Debug, PartialEq, Eq, Structural)]
pub enum RoiPreset {
    /// The Switch's Pokemon summary view, where a teal color is set for shinies.
    PkmnSummary,
}

impl RoiPreset {
    pub open spec fn spec_rect(self) -> Rect {
        match self {
            RoiPreset::PkmnSummary => Rect { x: 815, y: 250, width: 890, height: 325 },
        }
    }

    /// The preset's rectangle in frame coordinates.
    pub fn rect(&self) -> (r: Rect)
        ensures
            r == self.spec_rect(),
    {
        let rect = match self {
            RoiPreset::PkmnSummary => Rect::new(815, 250, 890, 325),
        };
        rect
    }
}

} // verus!
