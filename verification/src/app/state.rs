//! What the capture application remembers while a region is being selected.
use vstd::prelude::*;
use crate::geometry::{Point, Rect};

verus! {

/// The selection state of the trace window.
#[derive(Clone, Copy, Debug, PartialEq, Eq, Structural)]
pub struct State {
    pub selected_roi: Option<Rect>,
    pub selecting: bool,
    pub start_point: Point,
    pub end_point: Point,
}

impl State {
    /// No region selected, no selection under way, both points at the origin.
    pub fn new() -> (r: Self)
        ensures
            r.selected_roi is None,
            !r.selecting,
            r.start_point == (Point { x: 0, y: 0 }),
            r.end_point == (Point { x: 0, y: 0 }),
    {
        Self {
            selected_roi: None,
            selecting: false,
            start_point: Point::origin(),
            end_point: Point::origin(),
        }
    }
}

} // verus!
