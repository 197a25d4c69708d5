use vstd::prelude::*;

use crate::camera::CameraMode;
use crate::wrapper::SuccessWrapper;

verus! {

/// What a device reports on the camera topic.
pub enum CameraResponse {
    TakePicture { response: SuccessWrapper<TakePictureResponse> },
    SendPicture { response: SuccessWrapper<SendPictureResponse> },
    SyncStatus { response: SuccessWrapper<SyncStatusResponse> },
}

/// The stages of taking a picture, each reported as it happens.
pub enum TakePictureResponse {
    PictureFailedToSchedule { uuid: u128, message: String },
    PictureTaken { uuid: u128 },
    PictureFailedToTake { uuid: u128, message: String },
    PictureSavedOnDevice { uuid: u128 },
    PictureFailedToSave { uuid: u128, message: String },
    Failed { uuid: u128, message: String },
}

/// The stages of sending a saved picture to the server.
pub enum SendPictureResponse {
    Failed { uuid: u128, message: String },
    PictureFailedToRead { uuid: u128, message: String },
    PictureSent { uuid: u128 },
    PictureFailedToSend { uuid: u128, message: String },
}

/// Whether the camera is synchronised with the others.
pub enum SyncStatusResponse {
    Failed { message: String },
    Success { sync_ready: bool, sync_timing: i64 },
}

/// What a device reports on the update topic.
pub enum UpdateResponse {
    DownloadingUpdate { new_version: String, version: String },
    UpdateDownloaded { new_version: String, version: String },
    AlreadyUpdated { new_version: String, version: String },
    Failed { new_version: Option<String>, version: Option<String>, message: String },
}

/// The device's status report.
pub struct Status {
    pub version: String,
    pub ip_address: Option<String>,
    pub camera_mode: CameraMode,
}

} // verus!
