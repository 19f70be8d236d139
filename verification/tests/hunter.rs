use shiny_hunter::app::opts::Opts;
use shiny_hunter::app::presets::RoiPreset as AppPreset;
use shiny_hunter::app::state::State;
use shiny_hunter::cli::Cli;
use shiny_hunter::enumdev::{backends, first_probe, next_probe, CaptureBackend, ProbeStep};
use shiny_hunter::geometry::{Bgr, Point, Rect};
use shiny_hunter::presets::RoiPreset;

#[test]
fn opts_take_cli_values() {
    let cli = Cli {
        cam_index: Some(2),
        debug: true,
        show: true,
        trace: false,
        roi_preset: Some(RoiPreset::PkmnSummary),
    };
    let o = Opts::from(cli);
    assert_eq!(o.camera_index, 2);
    assert!(o.debug && o.show && !o.trace);
    assert_eq!(o.roi, RoiPreset::PkmnSummary);
}

#[test]
fn opts_defaults() {
    let cli = Cli { cam_index: None, debug: false, show: false, trace: true, roi_preset: None };
    let o = Opts::from(cli);
    assert_eq!(o.camera_index, 0);
    assert_eq!(o.roi, RoiPreset::PkmnSummary);
    assert!(o.trace);
}

#[test]
fn summary_preset_rect() {
    assert_eq!(RoiPreset::PkmnSummary.rect(), Rect::new(815, 250, 890, 325));
}

#[test]
fn app_presets() {
    assert_eq!(AppPreset::PkmnSummaryView.rect(), Rect::new(262, 111, 23, 15));
    assert_eq!(AppPreset::TestImage.rect(), Rect::new(262, 111, 23, 15));
    assert_eq!(AppPreset::PkmnSummaryView.target_color(), Bgr::new(231, 231, 107));
    assert_eq!(AppPreset::TestImage.target_color(), Bgr::new(229, 244, 119));
    assert_eq!(AppPreset::PkmnSummaryView.name(), "pkmn-summary-view");
    assert_eq!(AppPreset::TestImage.name(), "test-image");
}

#[test]
fn selection_state_starts_empty() {
    let s = State::new();
    assert_eq!(s.selected_roi, None);
    assert!(!s.selecting);
    assert_eq!(s.start_point, Point::origin());
    assert_eq!(s.end_point, Point::new(0, 0));
}

#[test]
fn capture_backends() {
    assert_eq!(backends(), [CaptureBackend::Any, CaptureBackend::AvFoundation]);
    assert_eq!(CaptureBackend::Any.name(), "Default");
    assert_eq!(CaptureBackend::AvFoundation.name(), "AVFoundation");
}

#[test]
fn probe_lists_first_opening_backend_then_moves_on() {
    assert_eq!(first_probe(), ProbeStep::Try { camera: 0, backend: 0 });
    assert_eq!(next_probe(0, 0, true), ProbeStep::Try { camera: 1, backend: 0 });
    assert_eq!(next_probe(0, 0, false), ProbeStep::Try { camera: 0, backend: 1 });
    assert_eq!(next_probe(3, 1, false), ProbeStep::Try { camera: 4, backend: 0 });
    assert_eq!(next_probe(3, 1, true), ProbeStep::Try { camera: 4, backend: 0 });
    assert_eq!(next_probe(9, 0, false), ProbeStep::Try { camera: 9, backend: 1 });
    assert_eq!(next_probe(9, 1, false), ProbeStep::Finished);
    assert_eq!(next_probe(9, 0, true), ProbeStep::Finished);
}
