use shiny_hunter::geometry::{Bgr, Point};
use shiny_hunter::shiny_watch::app::{
    check_frame, crosshair, crosshair_targets, is_quit_key, plan_frame, roi_has_color, FrameError,
    FrameStep, Segment,
};
use shiny_hunter::shiny_watch::opts::Opts;
use shiny_hunter::shiny_watch::presets::{RegionOfInterest, RoiPreset};
use shiny_hunter::shiny_watch::state::{MouseEvent, State};

#[test]
fn presets_regions() {
    let a = RoiPreset::PkmnSummaryView.get();
    assert_eq!(a.point, Point::new(265, 109));
    assert_eq!(a.target_color, Bgr::new(231, 231, 107));
    let b = RoiPreset::TestImage.get();
    assert_eq!(b.point, Point::new(262, 111));
    assert_eq!(b.target_color, Bgr::new(229, 244, 119));
}

#[test]
fn presets_names() {
    assert_eq!(RoiPreset::PkmnSummaryView.name(), "pkmn-summary-view");
    assert_eq!(RoiPreset::TestImage.name(), "test-image");
}

#[test]
fn target_color_matches_itself() {
    for p in [RoiPreset::PkmnSummaryView, RoiPreset::TestImage] {
        let roi = p.get();
        assert!(roi_has_color(roi.target_color, &roi));
    }
}

#[test]
fn tolerance_is_twenty_per_channel() {
    let roi = RegionOfInterest { point: Point::new(0, 0), target_color: Bgr::new(100, 100, 100) };
    assert!(roi_has_color(Bgr::new(120, 80, 100), &roi));
    assert!(!roi_has_color(Bgr::new(121, 100, 100), &roi));
    assert!(!roi_has_color(Bgr::new(100, 79, 100), &roi));
    assert!(!roi_has_color(Bgr::new(100, 100, 0), &roi));
    let edge = RegionOfInterest { point: Point::new(0, 0), target_color: Bgr::new(0, 255, 10) };
    assert!(roi_has_color(Bgr::new(20, 235, 0), &edge));
    assert!(!roi_has_color(Bgr::new(21, 235, 0), &edge));
}

#[test]
fn color_match_is_symmetric() {
    let a = Bgr::new(10, 200, 30);
    let b = Bgr::new(25, 185, 50);
    let ra = RegionOfInterest { point: Point::new(0, 0), target_color: a };
    let rb = RegionOfInterest { point: Point::new(0, 0), target_color: b };
    assert_eq!(roi_has_color(a, &rb), roi_has_color(b, &ra));
    assert!(roi_has_color(a, &rb));
}

#[test]
fn frame_checks() {
    assert_eq!(check_frame(false, false), Err(FrameError::GrabFailed));
    assert_eq!(check_frame(false, true), Err(FrameError::GrabFailed));
    assert_eq!(check_frame(true, true), Err(FrameError::EmptyFrame));
    assert_eq!(check_frame(true, false), Ok(()));
    assert_eq!(FrameError::GrabFailed.message(), "Failed to grab frame");
    assert_eq!(FrameError::EmptyFrame.message(), "Frame was empty!");
}

#[test]
fn quit_keys() {
    assert!(is_quit_key(113));
    assert!(is_quit_key(27));
    assert!(!is_quit_key(81));
    assert!(!is_quit_key(-1));
}

#[test]
fn crosshair_arms() {
    let (h, v) = crosshair(Point::new(265, 109));
    assert_eq!(h, Segment { from: Point::new(255, 109), to: Point::new(275, 109) });
    assert_eq!(v, Segment { from: Point::new(265, 99), to: Point::new(265, 119) });
}

#[test]
fn crosshair_targets_in_trace_mode() {
    let roi = Point::new(1, 2);
    let click = Point::new(3, 4);
    assert_eq!(crosshair_targets(roi, true, Some(click)), vec![roi, click]);
    assert_eq!(crosshair_targets(roi, false, Some(click)), vec![roi]);
    assert_eq!(crosshair_targets(roi, true, None), vec![roi]);
}

#[test]
fn mouse_click_records_point() {
    let mut s = State::new();
    assert_eq!(s.clicked_point, None);
    s.on_mouse(MouseEvent::Other, 5, 6);
    assert_eq!(s.clicked_point, None);
    s.on_mouse(MouseEvent::LeftButtonDown, 5, 6);
    assert_eq!(s.clicked_point, Some(Point::new(5, 6)));
    s.on_mouse(MouseEvent::Other, 9, 9);
    assert_eq!(s.clicked_point, Some(Point::new(5, 6)));
}

fn opts(roi: RoiPreset, show: bool, trace: bool) -> Opts {
    Opts { debug: false, camera_index: 0, show, trace, roi }
}

#[test]
fn region_follows_preset() {
    assert_eq!(opts(RoiPreset::TestImage, false, false).region(), RoiPreset::TestImage.get());
    assert_eq!(
        opts(RoiPreset::PkmnSummaryView, false, false).region(),
        RoiPreset::PkmnSummaryView.get()
    );
}

#[test]
fn frame_plan_orders_steps() {
    let o = opts(RoiPreset::TestImage, true, true);
    let roi = RoiPreset::TestImage.get();
    let click = Point::new(9, 8);
    assert_eq!(
        plan_frame(&o, Some(click), true, false).unwrap(),
        vec![
            FrameStep::TestPixel(roi),
            FrameStep::Crosshair(roi.point),
            FrameStep::Crosshair(click),
            FrameStep::Show,
            FrameStep::WaitKey,
        ]
    );
    let quiet = opts(RoiPreset::PkmnSummaryView, false, false);
    let roi = RoiPreset::PkmnSummaryView.get();
    assert_eq!(
        plan_frame(&quiet, Some(click), true, false).unwrap(),
        vec![FrameStep::TestPixel(roi), FrameStep::Crosshair(roi.point), FrameStep::WaitKey]
    );
}

#[test]
fn frame_plan_stops_on_bad_frame() {
    let o = opts(RoiPreset::TestImage, true, true);
    assert_eq!(plan_frame(&o, None, false, false), Err(FrameError::GrabFailed));
    assert_eq!(plan_frame(&o, None, true, true), Err(FrameError::EmptyFrame));
}
