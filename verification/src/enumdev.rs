//! Camera enumeration: which cameras and capture backends are probed, and how
//! a backend is named in the listing.
use vstd::prelude::*;

verus! {

/// Cameras 0 up to, but not including, this index are probed.
pub const CAMERA_PROBE_LIMIT: i32 = 10;

/// A video capture backend.
#[derive(Clone, Copy, Debug, PartialEq, Eq, Structural)]
pub enum CaptureBackend {
    /// Whatever backend the capture library picks.
    Any,
    /// Apple's AVFoundation.
    AvFoundation,
}

impl CaptureBackend {
    pub open spec fn spec_name(self) -> Seq<char> {
        match self {
            CaptureBackend::Any => "Default"@,
            CaptureBackend::AvFoundation => "AVFoundation"@,
        }
    }

    /// The backend's name in the listing.
    pub fn name(&self) -> (r: &'static str)
        ensures
            r@ == self.spec_name(),
    {
        match self {
            CaptureBackend::Any => "Default",
            CaptureBackend::AvFoundation => "AVFoundation",
        }
    }
}

/// The backends tried for each camera, in order.
pub fn backends() -> (r: [CaptureBackend; 2])
    ensures
        r@ == seq![CaptureBackend::Any, CaptureBackend::AvFoundation],
{
    let r = [CaptureBackend::Any, CaptureBackend::AvFoundation];
    assert(r@ =~= seq![CaptureBackend::Any, CaptureBackend::AvFoundation]);
    r
}

/// The next probe of the camera listing.
#[derive(Clone, Copy, Debug, PartialEq, Eq, Structural)]
pub enum ProbeStep {
    /// Try to open camera `camera` with `backends()[backend]`.
    Try { camera: i32, backend: usize },
    /// Every camera has been probed.
    Finished,
}

/// What follows a probe: once a camera opens with a backend it is listed
/// and the listing moves on to the next camera; otherwise the next backend
/// is tried, and after the last backend the next camera.
pub open spec fn spec_next_probe(camera: i32, backend: usize, opened: bool) -> ProbeStep {
    if opened || backend + 1 >= 2 {
        if camera + 1 < CAMERA_PROBE_LIMIT {
            ProbeStep::Try { camera: (camera + 1) as i32, backend: 0 }
        } else {
            ProbeStep::Finished
        }
    } else {
        ProbeStep::Try { camera, backend: (backend + 1) as usize }
    }
}

/// The first probe: camera 0 with the first backend.
pub fn first_probe() -> (r: ProbeStep)
    ensures
        r == (ProbeStep::Try { camera: 0, backend: 0 }),
{
    ProbeStep::Try { camera: 0, backend: 0 }
}

/// The probe after trying camera `camera` with backend `backend`, which
/// opened the camera when `opened` holds (the camera is then listed).
pub fn next_probe(camera: i32, backend: usize, opened: bool) -> (r: ProbeStep)
    requires
        0 <= camera < CAMERA_PROBE_LIMIT,
        backend < 2,
    ensures
        r == spec_next_probe(camera, backend, opened),
{
    if opened || backend + 1 >= 2 {
        if camera + 1 < CAMERA_PROBE_LIMIT {
            ProbeStep::Try { camera: camera + 1, backend: 0 }
        } else {
            ProbeStep::Finished
        }
    } else {
        ProbeStep::Try { camera, backend: backend + 1 }
    }
}

} // verus!
