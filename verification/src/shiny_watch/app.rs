//! The decisions of the watcher's capture loop: when a frame shows a shiny,
//! what to draw on it, and when to stop.
use vstd::prelude::*;
use crate::geometry::{Bgr, Point};
use super::opts::Opts;
use super::presets::RegionOfInterest;

verus! {

/// How far each channel of the watched pixel may be from the target color.
pub const COLOR_TOLERANCE: u8 = 20;

/// Half the length of a crosshair's arms, in pixels.
pub const CROSSHAIR_SIZE: i32 = 10;

/// The key code of 'q'.
pub const KEY_Q: i32 = 113;

/// The key code of Escape.
pub const KEY_ESCAPE: i32 = 27;

/// Why a frame cannot be used.
#[derive(Clone, Copy, Debug, PartialEq, Eq, Structural)]
pub enum FrameError {
    /// The camera returned no frame.
    GrabFailed,
    /// The camera returned an empty frame.
    EmptyFrame,
}

impl FrameError {
    pub open spec fn spec_message(self) -> Seq<char> {
        match self {
            FrameError::GrabFailed => "Failed to grab frame"@,
            FrameError::EmptyFrame => "Frame was empty!"@,
        }
    }

    /// The error's message.
    pub fn message(&self) -> (r: &'static str)
        ensures
            r@ == self.spec_message(),
    {
        match self {
            FrameError::GrabFailed => "Failed to grab frame",
            FrameError::EmptyFrame => "Frame was empty!",
        }
    }
}

/// A line segment from `from` to `to`.
#[derive(Clone, Copy, Debug, PartialEq, Eq, Structural)]
pub struct Segment {
    pub from: Point,
    pub to: Point,
}

/// Whether two channel values differ by at most the tolerance.
pub open spec fn channel_close(a: u8, b: u8) -> bool {
    -(COLOR_TOLERANCE as int) <= a - b <= COLOR_TOLERANCE as int
}

/// Whether a pixel has the target color, channel by channel within the tolerance.
pub open spec fn color_matches(pixel: Bgr, target: Bgr) -> bool {
    &&& channel_close(pixel.b, target.b)
    &&& channel_close(pixel.g, target.g)
    &&& channel_close(pixel.r, target.r)
}

fn abs_diff(a: u8, b: u8) -> (r: u8)
    ensures
        r == if a > b { a - b } else { b - a },
{
    if a > b {
        a - b
    } else {
        b - a
    }
}

/// Whether the pixel read at the region's point shows the region's target color.
pub fn roi_has_color(pixel: Bgr, roi: &RegionOfInterest) -> (r: bool)
    ensures
        r == color_matches(pixel, roi.target_color),
        r <==> (-20 <= pixel.b - roi.target_color.b <= 20 && -20 <= pixel.g
            - roi.target_color.g <= 20 && -20 <= pixel.r - roi.target_color.r <= 20),
{
    let target = roi.target_color;
    let b_diff = abs_diff(pixel.b, target.b);
    let g_diff = abs_diff(pixel.g, target.g);
    let r_diff = abs_diff(pixel.r, target.r);
    b_diff <= COLOR_TOLERANCE && g_diff <= COLOR_TOLERANCE && r_diff <= COLOR_TOLERANCE
}

/// Color matching is symmetric, and the target color itself always matches.
pub proof fn law_color_match_symmetric(a: Bgr, b: Bgr)
    ensures
        color_matches(a, b) == color_matches(b, a),
        color_matches(a, a),
{
}

/// A pixel matches the target exactly when each of its three channels is at
/// most 20 away from the target's, each channel on its own: nothing else
/// about the pixel counts.
pub proof fn law_color_match_per_channel(p: Bgr, t: Bgr)
    ensures
        color_matches(p, t) <==> (-20 <= p.b - t.b <= 20 && -20 <= p.g - t.g <= 20 && -20 <= p.r
            - t.r <= 20),
        (p.b - t.b > 20 || t.b - p.b > 20) ==> !color_matches(p, t),
        (p.g - t.g > 20 || t.g - p.g > 20) ==> !color_matches(p, t),
        (p.r - t.r > 20 || t.r - p.r > 20) ==> !color_matches(p, t),
{
}

/// Whether a grabbed frame can be used: `Err` when nothing was grabbed, or when
/// the frame is empty.
pub fn check_frame(grabbed: bool, empty: bool) -> (r: Result<(), FrameError>)
    ensures
        !grabbed ==> r == Err::<(), FrameError>(FrameError::GrabFailed),
        grabbed && empty ==> r == Err::<(), FrameError>(FrameError::EmptyFrame),
        grabbed && !empty ==> r is Ok,
{
    if !grabbed {
        Err(FrameError::GrabFailed)
    } else if empty {
        Err(FrameError::EmptyFrame)
    } else {
        Ok(())
    }
}

/// Whether a key press ends the capture loop: 'q' or Escape.
pub fn is_quit_key(key: i32) -> (r: bool)
    ensures
        r == (key == KEY_Q || key == KEY_ESCAPE),
{
    key == KEY_Q || key == KEY_ESCAPE
}

/// The two arms of a crosshair centred on `p`: a horizontal and a vertical
/// segment reaching `CROSSHAIR_SIZE` pixels each way.
pub fn crosshair(p: Point) -> (r: (Segment, Segment))
    requires
        i32::MIN + CROSSHAIR_SIZE <= p.x <= i32::MAX - CROSSHAIR_SIZE,
        i32::MIN + CROSSHAIR_SIZE <= p.y <= i32::MAX - CROSSHAIR_SIZE,
    ensures
        r.0 == (Segment {
            from: Point { x: (p.x - CROSSHAIR_SIZE) as i32, y: p.y },
            to: Point { x: (p.x + CROSSHAIR_SIZE) as i32, y: p.y },
        }),
        r.1 == (Segment {
            from: Point { x: p.x, y: (p.y - CROSSHAIR_SIZE) as i32 },
            to: Point { x: p.x, y: (p.y + CROSSHAIR_SIZE) as i32 },
        }),
{
    let size = CROSSHAIR_SIZE;
    let horizontal = Segment {
        from: Point::new(p.x - size, p.y),
        to: Point::new(p.x + size, p.y),
    };
    let vertical = Segment {
        from: Point::new(p.x, p.y - size),
        to: Point::new(p.x, p.y + size),
    };
    (horizontal, vertical)
}

/// The points that get a crosshair on each frame: the watched point, and in
/// trace mode the last clicked point as well.
pub fn crosshair_targets(roi_point: Point, trace: bool, clicked: Option<Point>) -> (r: Vec<Point>)
    ensures
        trace && clicked is Some ==> r@ == seq![roi_point, clicked.unwrap()],
        !(trace && clicked is Some) ==> r@ == seq![roi_point],
{
    let mut r: Vec<Point> = Vec::new();
    r.push(roi_point);
    if trace {
        if let Some(p) = clicked {
            r.push(p);
        }
    }
    proof {
        if trace && clicked is Some {
            assert(r@ =~= seq![roi_point, clicked.unwrap()]);
        } else {
            assert(r@ =~= seq![roi_point]);
        }
    }
    r
}

/// One step of the work on a usable frame, in the order the watcher does it.
#[derive(Clone, Copy, Debug, PartialEq, Eq, Structural)]
pub enum FrameStep {
    /// Read the pixel at the region's point and report a shiny when
    /// `roi_has_color` holds for it.
    TestPixel(RegionOfInterest),
    /// Draw a crosshair centred on the point.
    Crosshair(Point),
    /// Show the frame in the window.
    Show,
    /// Wait for a key for one millisecond; stop when `is_quit_key` holds for it.
    WaitKey,
}

/// The steps on a usable frame: test the watched region's pixel, draw the
/// crosshairs, show the frame when asked to, then poll the keyboard.
pub open spec fn spec_frame_steps(opts: Opts, clicked: Option<Point>) -> Seq<FrameStep> {
    let roi = opts.roi.spec_get();
    seq![FrameStep::TestPixel(roi), FrameStep::Crosshair(roi.point)] + (if opts.trace
        && clicked is Some {
        seq![FrameStep::Crosshair(clicked.unwrap())]
    } else {
        Seq::empty()
    }) + (if opts.show {
        seq![FrameStep::Show]
    } else {
        Seq::empty()
    }) + seq![FrameStep::WaitKey]
}

/// What to do with a grabbed frame: stop with the frame's error when it cannot
/// be used, else the steps of `spec_frame_steps` for the settings and the
/// last clicked point.
pub fn plan_frame(opts: &Opts, clicked: Option<Point>, grabbed: bool, empty: bool) -> (r: Result<
    Vec<FrameStep>,
    FrameError,
>)
    ensures
        !grabbed ==> r == Err::<Vec<FrameStep>, FrameError>(FrameError::GrabFailed),
        grabbed && empty ==> r == Err::<Vec<FrameStep>, FrameError>(FrameError::EmptyFrame),
        grabbed && !empty ==> r is Ok && r.unwrap()@ == spec_frame_steps(*opts, clicked),
        grabbed && !empty ==> (r.unwrap()@.contains(FrameStep::Show) <==> opts.show),
{
    if let Err(e) = check_frame(grabbed, empty) {
        return Err(e);
    }
    let roi = opts.region();
    let mut steps: Vec<FrameStep> = Vec::new();
    steps.push(FrameStep::TestPixel(roi));
    let targets = crosshair_targets(roi.point, opts.trace, clicked);
    let mut i: usize = 0;
    while i < targets.len()
        invariant
            i <= targets@.len(),
            steps@ == seq![FrameStep::TestPixel(roi)] + targets@.take(i as int).map_values(
                |p: Point| FrameStep::Crosshair(p),
            ),
        decreases targets@.len() - i,
    {
        steps.push(FrameStep::Crosshair(targets[i]));
        proof {
            assert(targets@.take(i + 1) =~= targets@.take(i as int).push(targets@[i as int]));
        }
        i = i + 1;
        proof {
            assert(steps@ =~= seq![FrameStep::TestPixel(roi)] + targets@.take(i as int).map_values(
                |p: Point| FrameStep::Crosshair(p),
            ));
        }
    }
    if opts.show {
        steps.push(FrameStep::Show);
    }
    steps.push(FrameStep::WaitKey);
    proof {
        assert(targets@.take(targets@.len() as int) =~= targets@);
        assert(steps@ =~= spec_frame_steps(*opts, clicked));
        lemma_frame_steps_shape(*opts, clicked);
    }
    Ok(steps)
}

/// The work on a usable frame: first the watched pixel of the chosen preset is
/// tested, then a crosshair is drawn on it, then (in trace mode, when a point
/// was clicked) on the clicked point; the frame is shown exactly when showing
/// was asked for, after the drawing; the keyboard is polled last. Nothing
/// else is done.
pub proof fn law_frame_steps(opts: Opts, clicked: Option<Point>)
    ensures
        ({
            let s = spec_frame_steps(opts, clicked);
            let roi = opts.roi.spec_get();
            let extra: int = if opts.trace && clicked is Some { 1 } else { 0 };
            &&& s.len() == 3 + extra + (if opts.show { 1int } else { 0 })
            &&& s[0] == FrameStep::TestPixel(roi)
            &&& s[1] == FrameStep::Crosshair(roi.point)
            &&& (opts.trace && clicked is Some) ==> s[2] == FrameStep::Crosshair(clicked.unwrap())
            &&& s.last() == FrameStep::WaitKey
            &&& s.contains(FrameStep::Show) <==> opts.show
            &&& opts.show ==> s[s.len() - 2] == FrameStep::Show
            &&& forall|i: int| 0 <= i < s.len() - 1 ==> s[i] != FrameStep::WaitKey
        }),
{
    lemma_frame_steps_shape(opts, clicked);
}

proof fn lemma_frame_steps_shape(opts: Opts, clicked: Option<Point>)
    ensures
        ({
            let s = spec_frame_steps(opts, clicked);
            let roi = opts.roi.spec_get();
            let extra: int = if opts.trace && clicked is Some { 1 } else { 0 };
            &&& s.len() == 3 + extra + (if opts.show { 1int } else { 0 })
            &&& s[0] == FrameStep::TestPixel(roi)
            &&& s[1] == FrameStep::Crosshair(roi.point)
            &&& (opts.trace && clicked is Some) ==> s[2] == FrameStep::Crosshair(clicked.unwrap())
            &&& s.last() == FrameStep::WaitKey
            &&& s.contains(FrameStep::Show) <==> opts.show
            &&& opts.show ==> s[s.len() - 2] == FrameStep::Show
            &&& forall|i: int| 0 <= i < s.len() - 1 ==> s[i] != FrameStep::WaitKey
        }),
{
    let s = spec_frame_steps(opts, clicked);
    let roi = opts.roi.spec_get();
    let head = seq![FrameStep::TestPixel(roi), FrameStep::Crosshair(roi.point)];
    let mid: Seq<FrameStep> = if opts.trace && clicked is Some {
        seq![FrameStep::Crosshair(clicked.unwrap())]
    } else {
        Seq::empty()
    };
    let show: Seq<FrameStep> = if opts.show {
        seq![FrameStep::Show]
    } else {
        Seq::empty()
    };
    let expected = head + mid + show + seq![FrameStep::WaitKey];
    assert(s =~= expected);
    if opts.show {
        assert(s[s.len() - 2] == FrameStep::Show);
    } else {
        assert forall|i: int| 0 <= i < s.len() implies s[i] != FrameStep::Show by {
            if i >= 2 && i < s.len() - 1 {
                assert(s[i] == mid[i - 2]);
            }
        }
    }
    assert forall|i: int| 0 <= i < s.len() - 1 implies s[i] != FrameStep::WaitKey by {
        if i >= 2 && i < 2 + mid.len() {
            assert(s[i] == mid[i - 2]);
        } else if i >= 2 + mid.len() {
            assert(s[i] == show[i - 2 - mid.len()]);
        }
    }
}

} // verus!
