//! Control plane of a camera device agent: topic addressing, capture
//! scheduling, update decisions and message dispatch.

pub mod camera;
pub mod capture;
pub mod command;
pub mod dispatch;
pub mod endpoints;
pub mod http_error;
pub mod ntp;
pub mod responses;
pub mod settings;
pub mod text;
pub mod topics;
pub mod update;
pub mod wrapper;

pub use camera::{
    controls_apply_now, controls_filename, CameraMode, ControlConfig, FrameDurationLimits,
    ScalerCrop, STILL_CAMERA_CONTROLS_FILENAME, VIDEO_CAMERA_CONTROLS_FILENAME,
};
pub use capture::{
    encode_picture, get_filename, get_metadata_filename, get_photos_path, late_text,
    schedule_capture, sync_status_reply, upload_event, CaptureAction, CaptureEvent,
    CapturePipeline, CaptureStage, Schedule, JPEG_QUALITY,
};
pub use command::command_reply;
pub use dispatch::{
    route, subscription_topics, Dispatcher, Family, LoopAction, LoopEvent, LoopState, Route,
    TaskRegistry,
};
pub use endpoints::{get_download_update_url, get_upload_image_url};
pub use http_error::{is_success_status, HttpError};
pub use ntp::{ntp_command, ntp_reply, ntp_sync_slew, ntp_sync_step, NtpRequest};
pub use responses::{
    CameraResponse, SendPictureResponse, Status, SyncStatusResponse, TakePictureResponse,
    UpdateResponse,
};
pub use settings::{BaseSettings, Settings};
pub use text::decimal_text;
pub use topics::{
    get_column_receive_topic, get_individual_receive_topic, get_individual_send_topic,
    get_receive_topics, get_row_receive_topic, topic_is_global_or_individual, Publish,
};
pub use update::{
    check_update, finish_update, is_newer, is_startup_announcement, parse_version, startup_check_step, StartupStep, UpdatePlan,
    SemVer,
};
pub use wrapper::SuccessWrapper;
