//! The watcher's settings, resolved from the command line.
use vstd::prelude::*;
use crate::cli::Cli;
use crate::presets::RoiPreset;

verus! {

/// The camera used when the command line names none: the system's first camera.
pub const DEFAULT_CAMERA_INDEX: i32 = 0;

/// The settings the watcher runs with.
#[derive(Clone, Copy, Debug, PartialEq, Eq, Structural)]
pub struct Opts {
    pub debug: bool,
    pub camera_index: i32,
    pub show: bool,
    pub trace: bool,
    pub roi: RoiPreset,
}

impl Opts {
    /// The settings for a command line: the flags as given, the camera and
    /// the preset as given or their defaults.
    pub open spec fn spec_from_cli(value: Cli) -> Opts {
        Opts {
            debug: value.debug,
            camera_index: match value.cam_index {
                Some(i) => i,
                None => DEFAULT_CAMERA_INDEX,
            },
            roi: match value.roi_preset {
                Some(p) => p,
                None => RoiPreset::PkmnSummary,
            },
            show: value.show,
            trace: value.trace,
        }
    }
}

impl From<Cli> for Opts {
    fn from(value: Cli) -> (r: Self)
        ensures
            r.debug == value.debug,
            r.show == value.show,
            r.trace == value.trace,
            value.cam_index matches Some(i) ==> r.camera_index == i,
            value.cam_index is None ==> r.camera_index == DEFAULT_CAMERA_INDEX,
            value.roi_preset matches Some(p) ==> r.roi == p,
            value.roi_preset is None ==> r.roi == RoiPreset::PkmnSummary,
    {
        let camera_index = match value.cam_index {
            Some(i) => i,
            None => DEFAULT_CAMERA_INDEX,
        };
        let roi = match value.roi_preset {
            Some(p) => p,
            None => RoiPreset::PkmnSummary,
        };
        Self { debug: value.debug, camera_index, roi, show: value.show, trace: value.trace }
    }
}

impl vstd::std_specs::convert::FromSpecImpl<Cli> for Opts {
    open spec fn obeys_from_spec() -> bool {
        true
    }

    open spec fn from_spec(v: Cli) -> Opts {
        Opts::spec_from_cli(v)
    }
}

/// Each flag of the command line is taken as given, whatever the other flags
/// say; the camera and the preset are taken as given, or default to camera 0
/// and the summary preset.
pub proof fn law_opts_follow_cli(cli: Cli)
    ensures
        Opts::spec_from_cli(cli).debug == cli.debug,
        Opts::spec_from_cli(cli).show == cli.show,
        Opts::spec_from_cli(cli).trace == cli.trace,
        cli.cam_index matches Some(i) ==> Opts::spec_from_cli(cli).camera_index == i,
        cli.cam_index is None ==> Opts::spec_from_cli(cli).camera_index == 0,
        cli.roi_preset matches Some(p) ==> Opts::spec_from_cli(cli).roi == p,
        cli.roi_preset is None ==> Opts::spec_from_cli(cli).roi == RoiPreset::PkmnSummary,
{
}

} // verus!
