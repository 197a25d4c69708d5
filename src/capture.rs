use vstd::prelude::*;
use vstd::arithmetic::power::pow;

use crate::endpoints::get_upload_image_url;
use crate::http_error::{is_success_status, success_status};
use crate::responses::{CameraResponse, SendPictureResponse, SyncStatusResponse, TakePictureResponse};
use crate::text::{decimal, decimal_text, join, join3};
use crate::wrapper::SuccessWrapper;

verus! {

/// The lower-case hex digit of a value below 16.
pub open spec fn hex_char(d: int) -> char {
    if 0 <= d < 10 {
        ((d + 48) as u8) as char
    } else {
        ((d - 10 + 97) as u8) as char
    }
}

/// The `i`-th of the 32 hex digits of an id, most significant first.
pub open spec fn uuid_digit(id: u128, i: int) -> char {
    hex_char((id as int / pow(16, (31 - i) as nat)) % 16)
}

/// How many hyphens stand before position `k` of a request id's text.
pub open spec fn hyphens_before(k: int) -> int {
    if k <= 8 { 0 } else if k <= 13 { 1 } else if k <= 18 { 2 } else if k <= 23 { 3 } else { 4 }
}

/// The text of a request id: its 32 lower-case hex digits, most significant
/// first, with a hyphen after the 8th, 12th, 16th and 20th.
pub open spec fn uuid_string(id: u128) -> Seq<char> {
    Seq::new(
        36,
        |k: int|
            if k == 8 || k == 13 || k == 18 || k == 23 {
                '-'
            } else {
                uuid_digit(id, k - hyphens_before(k))
            },
    )
}

/// The JPEG file that an RGB image encodes to at a given quality.
pub uninterp spec fn jpeg_rgb(pixels: Seq<u8>, width: u16, height: u16, quality: u8) -> Seq<u8>;

/// Whether an RGB picture of these dimensions can be encoded from so many
/// samples: neither dimension is zero, and there are three samples per pixel.
pub open spec fn encodable(samples: nat, width: u16, height: u16) -> bool {
    width > 0 && height > 0 && samples >= width as int * height as int * 3
}

/// Relies on `uuid::Uuid::from_u128` (the id's bytes in big-endian order) and
/// `Display`, which writes the hyphenated lower-case form.
#[verifier::external_body]
fn uuid_text(id: u128) -> (r: String)
    ensures
        r@ == uuid_string(id),
        r@.len() == 36,
{
    uuid::Uuid::from_u128(id).to_string()
}

/// Relies on `jpeg_encoder::Encoder::encode` with RGB samples written into a
/// `Vec`: it fails exactly when a dimension is zero or the samples are fewer
/// than three per pixel, and otherwise writes the JPEG file.
#[verifier::external_body]
fn encode_rgb_jpeg(pixels: &Vec<u8>, width: u16, height: u16, quality: u8) -> (r: Result<Vec<u8>, String>)
    ensures
        r is Ok <==> encodable(pixels@.len(), width, height),
        r is Ok ==> r->Ok_0@ == jpeg_rgb(pixels@, width, height, quality),
{
    let mut buf = Vec::new();
    let encoder = jpeg_encoder::Encoder::new(&mut buf, quality);
    match encoder.encode(pixels, width, height, jpeg_encoder::ColorType::Rgb) {
        Ok(()) => Ok(buf),
        Err(e) => Err(e.to_string()),
    }
}

/// The quality pictures are compressed with.
pub const JPEG_QUALITY: u8 = 95;

/// Compresses the raw RGB samples of a picture for storage and transmission.
pub fn encode_picture(pixels: &Vec<u8>, width: u16, height: u16) -> (r: Result<Vec<u8>, String>)
    ensures
        r is Ok <==> encodable(pixels@.len(), width, height),
        r is Ok ==> r->Ok_0@ == jpeg_rgb(pixels@, width, height, JPEG_QUALITY),
{
    encode_rgb_jpeg(pixels, width, height, JPEG_QUALITY)
}

/// The name of a picture's file.
pub open spec fn picture_file_name(uuid: u128, device_id: Seq<char>) -> Seq<char> {
    uuid_string(uuid) + "_"@ + device_id + ".jpg"@
}

/// The name of the file that holds a picture's metadata.
pub open spec fn metadata_file_name(uuid: u128, device_id: Seq<char>) -> Seq<char> {
    uuid_string(uuid) + "_"@ + device_id + "_metadata.json"@
}

/// Where a file of the pictures directory lies.
pub open spec fn photos_path(file_name: Seq<char>) -> Seq<char> {
    "photos/"@ + file_name
}

/// The name of a picture's file, from its request id and the device id.
pub fn get_filename(uuid: u128, pi_zero_id: &str) -> (r: String)
    ensures
        r@ == picture_file_name(uuid, pi_zero_id@),
{
    let id = uuid_text(uuid);
    let r = join3(id.as_str(), "_", pi_zero_id).concat(".jpg");
    r
}

/// The name of a picture's metadata file, from its request id and the device id.
pub fn get_metadata_filename(uuid: u128, pi_zero_id: &str) -> (r: String)
    ensures
        r@ == metadata_file_name(uuid, pi_zero_id@),
{
    let id = uuid_text(uuid);
    join3(id.as_str(), "_", pi_zero_id).concat("_metadata.json")
}

/// The path of a file in the pictures directory.
pub fn get_photos_path(filename: &str) -> (r: String)
    ensures
        r@ == photos_path(filename@),
{
    join("photos/", filename)
}

/// How long to wait before a capture that should happen at `target_epoch_ms`,
/// measured from wall time `wall_now_ns`: negative when the instant has passed.
pub open spec fn wait_ns(target_epoch_ms: u64, wall_now_ns: i64) -> int {
    target_epoch_ms as int * 1_000_000 - wall_now_ns as int
}

/// When a capture can happen.
#[derive(PartialEq, Eq, Structural, Clone, Copy, Debug)]
pub enum Schedule {
    /// The instant has passed, by this many nanoseconds.
    Late { late_by_ns: u64 },
    /// The instant lies beyond what the monotonic clock can count.
    OutOfRange,
    /// The capture happens at this monotonic instant, in nanoseconds.
    At { deadline_ns: u64 },
}

/// The schedule of a capture, from the requested wall-clock instant and the
/// wall and monotonic clocks read together.
pub open spec fn schedule_of(target_epoch_ms: u64, wall_now_ns: i64, monotonic_now_ns: i64) -> Schedule {
    let wait = wait_ns(target_epoch_ms, wall_now_ns);
    let deadline = monotonic_now_ns as int + wait;
    if wait < 0 {
        Schedule::Late { late_by_ns: (-wait) as u64 }
    } else if 0 <= deadline <= u64::MAX {
        Schedule::At { deadline_ns: deadline as u64 }
    } else {
        Schedule::OutOfRange
    }
}

/// Turns a requested wall-clock instant into a monotonic deadline: the wait is
/// the target less the wall time now, added to the monotonic time now.
pub fn schedule_capture(target_epoch_ms: u64, wall_now_ns: i64, monotonic_now_ns: i64) -> (r: Schedule)
    ensures
        r == schedule_of(target_epoch_ms, wall_now_ns, monotonic_now_ns),
{
    let wait: i128 = target_epoch_ms as i128 * 1_000_000 - wall_now_ns as i128;
    if wait < 0 {
        return Schedule::Late { late_by_ns: (-wait) as u64 };
    }
    let deadline: i128 = monotonic_now_ns as i128 + wait;
    if 0 <= deadline && deadline <= u64::MAX as i128 {
        Schedule::At { deadline_ns: deadline as u64 }
    } else {
        Schedule::OutOfRange
    }
}

/// The message of a capture whose instant has passed.
pub open spec fn late_message(late_by_ns: u64) -> Seq<char> {
    "late by "@ + decimal(late_by_ns as nat) + " ns"@
}

/// Describes by how much a capture is late.
pub fn late_text(late_by_ns: u64) -> (r: String)
    ensures
        r@ == late_message(late_by_ns),
{
    let n = decimal_text(late_by_ns);
    join3("late by ", n.as_str(), " ns")
}

/// Where a capture request stands.
#[derive(PartialEq, Eq, Structural, Clone, Copy, Debug)]
pub enum CaptureStage {
    /// Waiting for the camera to take the picture at the deadline.
    Capturing,
    /// Waiting for the picture to be compressed.
    Encoding,
    /// Waiting for the picture to be written to local storage.
    Saving,
    /// Waiting for a saved picture to be read back.
    Reading,
    /// Waiting for the upload to the server.
    Sending,
    /// Nothing more happens for this request.
    Finished,
}

/// What came of the work that the previous action asked for.
pub enum CaptureEvent {
    Captured,
    CaptureFailed(String),
    Encoded(Vec<u8>),
    EncodeFailed(String),
    /// The picture was written; it carries the bytes on to the upload.
    Saved(Vec<u8>),
    SaveFailed(String),
    Read(Vec<u8>),
    ReadFailed(String),
    Sent,
    SendFailed(String),
}

/// The work that must happen next for a request.
pub enum CaptureAction {
    /// Take the picture at this monotonic instant, in nanoseconds.
    Capture { deadline_ns: u64 },
    /// Compress the picture that was taken.
    Encode,
    /// Write the compressed picture, and its metadata beside it.
    Save { jpeg: Vec<u8>, image_path: String, metadata_path: String },
    /// Read a saved picture and its metadata.
    Read { image_path: String, metadata_path: String },
    /// Upload the picture under its file name.
    Upload { jpeg: Vec<u8>, url: String, file_name: String, metadata_path: String },
    /// The request is done.
    Stop,
    /// The event did not belong to the request's stage: nothing to do.
    Nothing,
}

/// One capture request on its way through the pipeline.
pub struct CapturePipeline {
    pub uuid: u128,
    pub pi_zero_id: String,
    pub server_url: String,
    pub stage: CaptureStage,
}

/// Whether an event is the one that the stage waits for.
pub open spec fn event_fits(stage: CaptureStage, event: CaptureEvent) -> bool {
    match stage {
        CaptureStage::Capturing => event is Captured || event is CaptureFailed,
        CaptureStage::Encoding => event is Encoded || event is EncodeFailed,
        CaptureStage::Saving => event is Saved || event is SaveFailed,
        CaptureStage::Reading => event is Read || event is ReadFailed,
        CaptureStage::Sending => event is Sent || event is SendFailed,
        CaptureStage::Finished => false,
    }
}

/// The stage after an event; one that does not fit the stage changes nothing.
pub open spec fn next_stage(stage: CaptureStage, event: CaptureEvent) -> CaptureStage {
    if !event_fits(stage, event) {
        stage
    } else {
        match event {
            CaptureEvent::Captured => CaptureStage::Encoding,
            CaptureEvent::Encoded(_) => CaptureStage::Saving,
            CaptureEvent::Saved(_) => CaptureStage::Sending,
            CaptureEvent::Read(_) => CaptureStage::Sending,
            _ => CaptureStage::Finished,
        }
    }
}

/// A failed answer about taking a picture.
pub open spec fn take_failure(response: TakePictureResponse) -> CameraResponse {
    CameraResponse::TakePicture { response: SuccessWrapper { success: false, value: response } }
}

/// A successful answer about taking a picture.
pub open spec fn take_success(response: TakePictureResponse) -> CameraResponse {
    CameraResponse::TakePicture { response: SuccessWrapper { success: true, value: response } }
}

/// A failed answer about sending a picture.
pub open spec fn send_failure(response: SendPictureResponse) -> CameraResponse {
    CameraResponse::SendPicture { response: SuccessWrapper { success: false, value: response } }
}

/// A successful answer about sending a picture.
pub open spec fn send_success(response: SendPictureResponse) -> CameraResponse {
    CameraResponse::SendPicture { response: SuccessWrapper { success: true, value: response } }
}

/// What a request reports when an event arrives: every stage reports its
/// result, but for the compression, which reports only a failure.
pub open spec fn step_response(uuid: u128, stage: CaptureStage, event: CaptureEvent) -> Option<CameraResponse> {
    if !event_fits(stage, event) {
        None
    } else {
        match event {
            CaptureEvent::Captured => Some(take_success(TakePictureResponse::PictureTaken { uuid })),
            CaptureEvent::CaptureFailed(message) => Some(
                take_failure(TakePictureResponse::PictureFailedToTake { uuid, message }),
            ),
            CaptureEvent::Encoded(_) => None,
            CaptureEvent::EncodeFailed(message) => Some(
                take_failure(TakePictureResponse::Failed { uuid, message }),
            ),
            CaptureEvent::Saved(_) => Some(take_success(TakePictureResponse::PictureSavedOnDevice { uuid })),
            CaptureEvent::SaveFailed(message) => Some(
                take_failure(TakePictureResponse::PictureFailedToSave { uuid, message }),
            ),
            CaptureEvent::Read(_) => None,
            CaptureEvent::ReadFailed(message) => Some(
                send_failure(SendPictureResponse::PictureFailedToRead { uuid, message }),
            ),
            CaptureEvent::Sent => Some(send_success(SendPictureResponse::PictureSent { uuid })),
            CaptureEvent::SendFailed(message) => Some(
                send_failure(SendPictureResponse::PictureFailedToSend { uuid, message }),
            ),
        }
    }
}

impl CapturePipeline {
    /// Takes a picture request: schedules it, and either reports that its
    /// instant cannot be met or asks for the capture at the monotonic deadline.
    pub fn start(
        uuid: u128,
        picture_epoch: u64,
        wall_now_ns: i64,
        monotonic_now_ns: i64,
        pi_zero_id: String,
        server_url: String,
    ) -> (r: (CapturePipeline, Option<CameraResponse>, CaptureAction))
        ensures
            r.0.uuid == uuid,
            r.0.pi_zero_id == pi_zero_id,
            r.0.server_url == server_url,
            ({
                let schedule = schedule_of(picture_epoch, wall_now_ns, monotonic_now_ns);
                match schedule {
                    Schedule::At { deadline_ns } => {
                        &&& r.0.stage == CaptureStage::Capturing
                        &&& r.1 is None
                        &&& r.2 == CaptureAction::Capture { deadline_ns }
                    },
                    Schedule::Late { late_by_ns } => {
                        &&& r.0.stage == CaptureStage::Finished
                        &&& r.2 is Stop
                        &&& r.1 matches Some(CameraResponse::TakePicture { response })
                        &&& !response.success
                        &&& response.value matches TakePictureResponse::PictureFailedToSchedule { uuid: u, message }
                        &&& u == uuid
                        &&& message@ == late_message(late_by_ns)
                    },
                    Schedule::OutOfRange => {
                        &&& r.0.stage == CaptureStage::Finished
                        &&& r.2 is Stop
                        &&& r.1 matches Some(CameraResponse::TakePicture { response })
                        &&& !response.success
                        &&& response.value matches TakePictureResponse::PictureFailedToSchedule { uuid: u, message }
                        &&& u == uuid
                        &&& message@ == "deadline out of range"@
                    },
                }
            }),
    {
        let schedule = schedule_capture(picture_epoch, wall_now_ns, monotonic_now_ns);
        match schedule {
            Schedule::At { deadline_ns } => {
                let p = CapturePipeline { uuid, pi_zero_id, server_url, stage: CaptureStage::Capturing };
                (p, None, CaptureAction::Capture { deadline_ns })
            },
            Schedule::Late { late_by_ns } => {
                let message = late_text(late_by_ns);
                let p = CapturePipeline { uuid, pi_zero_id, server_url, stage: CaptureStage::Finished };
                let response = TakePictureResponse::PictureFailedToSchedule { uuid, message };
                let reply = CameraResponse::TakePicture { response: SuccessWrapper::failure(response) };
                (p, Some(reply), CaptureAction::Stop)
            },
            Schedule::OutOfRange => {
                let message = String::from_str("deadline out of range");
                let p = CapturePipeline { uuid, pi_zero_id, server_url, stage: CaptureStage::Finished };
                let response = TakePictureResponse::PictureFailedToSchedule { uuid, message };
                let reply = CameraResponse::TakePicture { response: SuccessWrapper::failure(response) };
                (p, Some(reply), CaptureAction::Stop)
            },
        }
    }

    /// Takes a request to send a picture saved earlier: asks to read it back.
    pub fn start_send(uuid: u128, pi_zero_id: String, server_url: String) -> (r: (CapturePipeline, CaptureAction))
        ensures
            r.0.uuid == uuid,
            r.0.pi_zero_id == pi_zero_id,
            r.0.server_url == server_url,
            r.0.stage == CaptureStage::Reading,
            r.1 matches CaptureAction::Read { image_path, metadata_path }
                && image_path@ == photos_path(picture_file_name(uuid, pi_zero_id@))
                && metadata_path@ == photos_path(metadata_file_name(uuid, pi_zero_id@)),
    {
        let image_path = get_photos_path(get_filename(uuid, pi_zero_id.as_str()).as_str());
        let metadata_path = get_photos_path(get_metadata_filename(uuid, pi_zero_id.as_str()).as_str());
        let p = CapturePipeline { uuid, pi_zero_id, server_url, stage: CaptureStage::Reading };
        (p, CaptureAction::Read { image_path, metadata_path })
    }

    /// Moves the request on by one event: reports the stage's result and says
    /// what must happen next. A failure ends the request; a saved picture is
    /// sent, and a picture that was not saved never is.
    pub fn step(&mut self, event: CaptureEvent) -> (r: (Option<CameraResponse>, CaptureAction))
        ensures
            final(self).uuid == old(self).uuid,
            final(self).pi_zero_id == old(self).pi_zero_id,
            final(self).server_url == old(self).server_url,
            final(self).stage == next_stage(old(self).stage, event),
            r.0 == step_response(old(self).uuid, old(self).stage, event),
            !event_fits(old(self).stage, event) ==> r.1 is Nothing,
            event_fits(old(self).stage, event) && final(self).stage == CaptureStage::Finished ==> r.1 is Stop,
            event_fits(old(self).stage, event) && final(self).stage == CaptureStage::Encoding ==> r.1 is Encode,
            event_fits(old(self).stage, event) && final(self).stage == CaptureStage::Saving ==> {
                &&& r.1 matches CaptureAction::Save { jpeg, image_path, metadata_path }
                &&& event == CaptureEvent::Encoded(jpeg)
                &&& image_path@ == photos_path(picture_file_name(old(self).uuid, old(self).pi_zero_id@))
                &&& metadata_path@ == photos_path(metadata_file_name(old(self).uuid, old(self).pi_zero_id@))
            },
            event_fits(old(self).stage, event) && final(self).stage == CaptureStage::Sending ==> {
                &&& r.1 matches CaptureAction::Upload { jpeg, url, file_name, metadata_path }
                &&& (event == CaptureEvent::Saved(jpeg) || event == CaptureEvent::Read(jpeg))
                &&& url@ == old(self).server_url@ + "/uploadimage"@
                &&& file_name@ == picture_file_name(old(self).uuid, old(self).pi_zero_id@)
                &&& metadata_path@ == photos_path(metadata_file_name(old(self).uuid, old(self).pi_zero_id@))
            },
    {
        let uuid = self.uuid;
        match (self.stage, event) {
            (CaptureStage::Capturing, CaptureEvent::Captured) => {
                self.stage = CaptureStage::Encoding;
                let response = TakePictureResponse::PictureTaken { uuid };
                (Some(CameraResponse::TakePicture { response: SuccessWrapper::success(response) }), CaptureAction::Encode)
            },
            (CaptureStage::Capturing, CaptureEvent::CaptureFailed(message)) => {
                self.stage = CaptureStage::Finished;
                let response = TakePictureResponse::PictureFailedToTake { uuid, message };
                (Some(CameraResponse::TakePicture { response: SuccessWrapper::failure(response) }), CaptureAction::Stop)
            },
            (CaptureStage::Encoding, CaptureEvent::Encoded(jpeg)) => {
                self.stage = CaptureStage::Saving;
                let image_path = get_photos_path(get_filename(uuid, self.pi_zero_id.as_str()).as_str());
                let metadata_path = get_photos_path(get_metadata_filename(uuid, self.pi_zero_id.as_str()).as_str());
                (None, CaptureAction::Save { jpeg, image_path, metadata_path })
            },
            (CaptureStage::Encoding, CaptureEvent::EncodeFailed(message)) => {
                self.stage = CaptureStage::Finished;
                let response = TakePictureResponse::Failed { uuid, message };
                (Some(CameraResponse::TakePicture { response: SuccessWrapper::failure(response) }), CaptureAction::Stop)
            },
            (CaptureStage::Saving, CaptureEvent::Saved(jpeg)) => {
                self.stage = CaptureStage::Sending;
                let response = TakePictureResponse::PictureSavedOnDevice { uuid };
                (Some(CameraResponse::TakePicture { response: SuccessWrapper::success(response) }), self.upload_action(jpeg))
            },
            (CaptureStage::Saving, CaptureEvent::SaveFailed(message)) => {
                self.stage = CaptureStage::Finished;
                let response = TakePictureResponse::PictureFailedToSave { uuid, message };
                (Some(CameraResponse::TakePicture { response: SuccessWrapper::failure(response) }), CaptureAction::Stop)
            },
            (CaptureStage::Reading, CaptureEvent::Read(jpeg)) => {
                self.stage = CaptureStage::Sending;
                (None, self.upload_action(jpeg))
            },
            (CaptureStage::Reading, CaptureEvent::ReadFailed(message)) => {
                self.stage = CaptureStage::Finished;
                let response = SendPictureResponse::PictureFailedToRead { uuid, message };
                (Some(CameraResponse::SendPicture { response: SuccessWrapper::failure(response) }), CaptureAction::Stop)
            },
            (CaptureStage::Sending, CaptureEvent::Sent) => {
                self.stage = CaptureStage::Finished;
                let response = SendPictureResponse::PictureSent { uuid };
                (Some(CameraResponse::SendPicture { response: SuccessWrapper::success(response) }), CaptureAction::Stop)
            },
            (CaptureStage::Sending, CaptureEvent::SendFailed(message)) => {
                self.stage = CaptureStage::Finished;
                let response = SendPictureResponse::PictureFailedToSend { uuid, message };
                (Some(CameraResponse::SendPicture { response: SuccessWrapper::failure(response) }), CaptureAction::Stop)
            },
            _ => (None, CaptureAction::Nothing),
        }
    }

    fn upload_action(&self, jpeg: Vec<u8>) -> (r: CaptureAction)
        ensures
            r matches CaptureAction::Upload { jpeg: j, url, file_name, metadata_path }
                && j == jpeg
                && url@ == self.server_url@ + "/uploadimage"@
                && file_name@ == picture_file_name(self.uuid, self.pi_zero_id@)
                && metadata_path@ == photos_path(metadata_file_name(self.uuid, self.pi_zero_id@)),
    {
        CaptureAction::Upload {
            jpeg,
            url: get_upload_image_url(self.server_url.as_str()),
            file_name: get_filename(self.uuid, self.pi_zero_id.as_str()),
            metadata_path: get_photos_path(get_metadata_filename(self.uuid, self.pi_zero_id.as_str()).as_str()),
        }
    }
}

/// Whether a report says that its stage failed.
pub open spec fn reports_failure(r: CameraResponse) -> bool {
    match r {
        CameraResponse::TakePicture { response } => !response.success,
        CameraResponse::SendPicture { response } => !response.success,
        CameraResponse::SyncStatus { response } => !response.success,
    }
}

/// The stage a request reaches through a run of events.
pub open spec fn run_stage(stage: CaptureStage, events: Seq<CaptureEvent>) -> CaptureStage
    decreases events.len(),
{
    if events.len() == 0 {
        stage
    } else {
        run_stage(next_stage(stage, events[0]), events.drop_first())
    }
}

/// Everything a request reports, in order, through a run of events.
pub open spec fn run_responses(uuid: u128, stage: CaptureStage, events: Seq<CaptureEvent>) -> Seq<CameraResponse>
    decreases events.len(),
{
    if events.len() == 0 {
        Seq::empty()
    } else {
        let first = match step_response(uuid, stage, events[0]) {
            Some(r) => seq![r],
            None => Seq::empty(),
        };
        first + run_responses(uuid, next_stage(stage, events[0]), events.drop_first())
    }
}

/// A finished request reports nothing more, whatever arrives.
pub proof fn lemma_finished_is_silent(uuid: u128, events: Seq<CaptureEvent>)
    ensures
        run_responses(uuid, CaptureStage::Finished, events) == Seq::<CameraResponse>::empty(),
        run_stage(CaptureStage::Finished, events) == CaptureStage::Finished,
    decreases events.len(),
{
    if events.len() > 0 {
        lemma_finished_is_silent(uuid, events.drop_first());
    }
}

/// A picture requested for an instant that has passed is reported once, as
/// not scheduled, and nothing more is reported for it.
pub proof fn lemma_late_request_reports_once(
    uuid: u128,
    picture_epoch: u64,
    wall_now_ns: i64,
    monotonic_now_ns: i64,
    events: Seq<CaptureEvent>,
)
    requires
        (picture_epoch as int) * 1_000_000 < wall_now_ns as int,
    ensures
        schedule_of(picture_epoch, wall_now_ns, monotonic_now_ns) is Late,
        run_responses(uuid, CaptureStage::Finished, events).len() == 0,
{
    lemma_finished_is_silent(uuid, events);
}

/// A request whose every stage succeeds reports, in this order and nothing
/// else: taken, saved on the device, sent.
pub proof fn lemma_successful_pipeline_order(uuid: u128, jpeg: Vec<u8>)
    ensures
        run_responses(
            uuid,
            CaptureStage::Capturing,
            seq![
                CaptureEvent::Captured,
                CaptureEvent::Encoded(jpeg),
                CaptureEvent::Saved(jpeg),
                CaptureEvent::Sent,
            ],
        ) == seq![
            take_success(TakePictureResponse::PictureTaken { uuid }),
            take_success(TakePictureResponse::PictureSavedOnDevice { uuid }),
            send_success(SendPictureResponse::PictureSent { uuid }),
        ],
{
    let events = seq![
        CaptureEvent::Captured,
        CaptureEvent::Encoded(jpeg),
        CaptureEvent::Saved(jpeg),
        CaptureEvent::Sent,
    ];
    let e1 = events.drop_first();
    let e2 = e1.drop_first();
    let e3 = e2.drop_first();
    assert(e3.drop_first().len() == 0);
    assert(run_responses(uuid, CaptureStage::Finished, e3.drop_first()) == Seq::<CameraResponse>::empty());
    assert(run_responses(uuid, CaptureStage::Sending, e3) =~= seq![send_success(SendPictureResponse::PictureSent { uuid })]);
    assert(run_responses(uuid, CaptureStage::Saving, e2) =~= seq![
        take_success(TakePictureResponse::PictureSavedOnDevice { uuid }),
        send_success(SendPictureResponse::PictureSent { uuid }),
    ]);
    assert(run_responses(uuid, CaptureStage::Encoding, e1) =~= run_responses(uuid, CaptureStage::Saving, e2));
}

/// Once a request reports a failure it reports nothing more, whatever
/// arrives after.
pub proof fn lemma_failure_is_last(uuid: u128, stage: CaptureStage, events: Seq<CaptureEvent>)
    ensures
        forall|i: int|
            0 <= i < run_responses(uuid, stage, events).len()
                && reports_failure(#[trigger] run_responses(uuid, stage, events)[i])
                ==> i == run_responses(uuid, stage, events).len() - 1,
    decreases events.len(),
{
    if events.len() > 0 {
        let next = next_stage(stage, events[0]);
        let rest = events.drop_first();
        lemma_failure_is_last(uuid, next, rest);
        let all = run_responses(uuid, stage, events);
        let tail = run_responses(uuid, next, rest);
        match step_response(uuid, stage, events[0]) {
            Some(r) => {
                assert(all == seq![r] + tail);
                if reports_failure(r) {
                    assert(next == CaptureStage::Finished);
                    lemma_finished_is_silent(uuid, rest);
                    assert(all.len() == 1);
                }
                assert forall|i: int| 0 <= i < all.len() && reports_failure(#[trigger] all[i]) implies i == all.len() - 1 by {
                    if i > 0 {
                        assert(all[i] == tail[i - 1]);
                    }
                }
            },
            None => {
                assert(all =~= tail);
            },
        }
    }
}

/// What an answered upload means for the request: sent on a 2xx status,
/// otherwise failed with the status's text.
pub fn upload_event(status: u16, status_text: String) -> (r: CaptureEvent)
    ensures
        success_status(status) ==> r is Sent,
        !success_status(status) ==> r == CaptureEvent::SendFailed(status_text),
{
    if is_success_status(status) {
        CaptureEvent::Sent
    } else {
        CaptureEvent::SendFailed(status_text)
    }
}

/// The report of the camera's synchronisation, from what the camera answered.
pub open spec fn sync_reply_of(result: Result<(bool, i64), String>) -> CameraResponse {
    match result {
        Ok((ready, timing)) => CameraResponse::SyncStatus {
            response: SuccessWrapper {
                success: true,
                value: SyncStatusResponse::Success { sync_ready: ready, sync_timing: timing },
            },
        },
        Err(message) => CameraResponse::SyncStatus {
            response: SuccessWrapper { success: false, value: SyncStatusResponse::Failed { message } },
        },
    }
}

/// The report of the camera's synchronisation: readiness and timing, or why
/// they could not be read.
pub fn sync_status_reply(result: Result<(bool, i64), String>) -> (r: CameraResponse)
    ensures
        r == sync_reply_of(result),
{
    match result {
        Ok((sync_ready, sync_timing)) => CameraResponse::SyncStatus {
            response: SuccessWrapper::success(SyncStatusResponse::Success { sync_ready, sync_timing }),
        },
        Err(message) => CameraResponse::SyncStatus {
            response: SuccessWrapper::failure(SyncStatusResponse::Failed { message }),
        },
    }
}

/// The request id a report speaks of, if any.
pub open spec fn response_uuid(r: CameraResponse) -> Option<u128> {
    match r {
        CameraResponse::TakePicture { response } => match response.value {
            TakePictureResponse::PictureFailedToSchedule { uuid, .. } => Some(uuid),
            TakePictureResponse::PictureTaken { uuid } => Some(uuid),
            TakePictureResponse::PictureFailedToTake { uuid, .. } => Some(uuid),
            TakePictureResponse::PictureSavedOnDevice { uuid } => Some(uuid),
            TakePictureResponse::PictureFailedToSave { uuid, .. } => Some(uuid),
            TakePictureResponse::Failed { uuid, .. } => Some(uuid),
        },
        CameraResponse::SendPicture { response } => match response.value {
            SendPictureResponse::Failed { uuid, .. } => Some(uuid),
            SendPictureResponse::PictureFailedToRead { uuid, .. } => Some(uuid),
            SendPictureResponse::PictureSent { uuid } => Some(uuid),
            SendPictureResponse::PictureFailedToSend { uuid, .. } => Some(uuid),
        },
        CameraResponse::SyncStatus { .. } => None,
    }
}

/// Every report of a request is about that request's own id, so reports of
/// other requests never stand among its own.
pub proof fn lemma_reports_carry_request_id(uuid: u128, stage: CaptureStage, events: Seq<CaptureEvent>)
    ensures
        forall|i: int|
            0 <= i < run_responses(uuid, stage, events).len()
                ==> response_uuid(#[trigger] run_responses(uuid, stage, events)[i]) == Some(uuid),
    decreases events.len(),
{
    if events.len() > 0 {
        let next = next_stage(stage, events[0]);
        let rest = events.drop_first();
        lemma_reports_carry_request_id(uuid, next, rest);
        let all = run_responses(uuid, stage, events);
        let tail = run_responses(uuid, next, rest);
        match step_response(uuid, stage, events[0]) {
            Some(r) => {
                assert(all == seq![r] + tail);
                assert forall|i: int| 0 <= i < all.len() implies response_uuid(#[trigger] all[i]) == Some(uuid) by {
                    if i > 0 {
                        assert(all[i] == tail[i - 1]);
                    }
                }
            },
            None => {
                assert(all =~= tail);
            },
        }
    }
}

/// A picture requested 50 ms after the millisecond in which it is received is
/// taken at the monotonic instant the wait leads to, a little under 50 ms on,
/// and a run in which every stage succeeds reports taken, saved on the
/// device, and sent.
pub proof fn lemma_picture_ahead_is_taken_saved_sent(
    uuid: u128,
    now_ms: u64,
    wall_now_ns: i64,
    monotonic_now_ns: i64,
    jpeg: Vec<u8>,
)
    requires
        now_ms as int + 50 <= u64::MAX,
        now_ms as int * 1_000_000 <= wall_now_ns as int,
        (wall_now_ns as int) < (now_ms as int + 1) * 1_000_000,
        0 <= monotonic_now_ns,
    ensures
        ({
            let wait = (now_ms as int + 50) * 1_000_000 - wall_now_ns as int;
            &&& 49_000_000 < wait <= 50_000_000
            &&& schedule_of((now_ms + 50) as u64, wall_now_ns, monotonic_now_ns) == Schedule::At {
                deadline_ns: (monotonic_now_ns as int + wait) as u64,
            }
        }),
        run_responses(
            uuid,
            CaptureStage::Capturing,
            seq![
                CaptureEvent::Captured,
                CaptureEvent::Encoded(jpeg),
                CaptureEvent::Saved(jpeg),
                CaptureEvent::Sent,
            ],
        ) == seq![
            take_success(TakePictureResponse::PictureTaken { uuid }),
            take_success(TakePictureResponse::PictureSavedOnDevice { uuid }),
            send_success(SendPictureResponse::PictureSent { uuid }),
        ],
{
    lemma_successful_pipeline_order(uuid, jpeg);
}

} // verus!
