use vstd::prelude::*;

verus! {

/// The mode the camera runs in.
#[derive(PartialEq, Eq, Structural, Clone, Copy, Debug)]
pub enum CameraMode {
    Still,
    Video,
}

/// Which of the two control presets a request speaks of.
#[derive(PartialEq, Eq, Structural, Clone, Copy, Debug)]
pub enum ControlConfig {
    Still,
    Video,
}

/// Bounds on the duration of a frame, in microseconds.
#[derive(PartialEq, Eq, Structural, Clone, Copy, Debug)]
pub struct FrameDurationLimits {
    pub min: u64,
    pub max: u64,
}

/// The part of the sensor that is read out.
#[derive(PartialEq, Eq, Structural, Clone, Copy, Debug)]
pub struct ScalerCrop {
    pub x: u32,
    pub y: u32,
    pub width: u32,
    pub height: u32,
}

/// The file that holds the control preset of the still mode.
pub const STILL_CAMERA_CONTROLS_FILENAME: &'static str = "controls_still.json";

/// The file that holds the control preset of the video mode.
pub const VIDEO_CAMERA_CONTROLS_FILENAME: &'static str = "controls_video.json";

/// The preset file of a mode: one file per mode, overwritten on every update.
pub fn controls_filename(mode: CameraMode) -> (r: &'static str)
    ensures
        mode == CameraMode::Still ==> r@ == STILL_CAMERA_CONTROLS_FILENAME@,
        mode == CameraMode::Video ==> r@ == VIDEO_CAMERA_CONTROLS_FILENAME@,
{
    match mode {
        CameraMode::Still => STILL_CAMERA_CONTROLS_FILENAME,
        CameraMode::Video => VIDEO_CAMERA_CONTROLS_FILENAME,
    }
}

/// New controls reach the camera at once only when they are for the mode it runs in.
pub fn controls_apply_now(requested: CameraMode, running: CameraMode) -> (r: bool)
    ensures
        r == (requested == running),
{
    requested == running
}

} // verus!
