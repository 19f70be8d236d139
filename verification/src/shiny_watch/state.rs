//! What the watcher remembers between frames.
use vstd::prelude::*;
use crate::geometry::Point;

verus! {

/// A mouse event on the preview window, as far as the watcher cares.
#[derive(Clone, Copy, Debug, PartialEq, Eq, Structural)]
pub enum MouseEvent {
    LeftButtonDown,
    Other,
}

/// The point last clicked in the preview window, if any.
#[derive(Clone, Copy, Debug, PartialEq, Eq, Structural)]
pub struct State {
    pub clicked_point: Option<Point>,
}

impl State {
    pub fn new() -> (r: Self)
        ensures
            r.clicked_point is None,
    {
        Self { clicked_point: None }
    }

    /// Records a click: a left button press at (x, y) becomes the clicked
    /// point; other events change nothing.
    pub fn on_mouse(&mut self, event: MouseEvent, x: i32, y: i32)
        ensures
            event == MouseEvent::LeftButtonDown ==> final(self).clicked_point == Some(
                Point { x, y },
            ),
            event != MouseEvent::LeftButtonDown ==> *final(self) == *old(self),
    {
        match event {
            MouseEvent::LeftButtonDown => {
                self.clicked_point = Some(Point::new(x, y));
            },
            MouseEvent::Other => {},
        }
    }
}

} // verus!
