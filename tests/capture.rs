use pizerocamera::{
    decimal_text, encode_picture, get_filename, get_metadata_filename, get_photos_path,
    late_text, schedule_capture, sync_status_reply, upload_event, CameraResponse, CaptureAction,
    CaptureEvent, CapturePipeline, CaptureStage, Schedule, SendPictureResponse,
    SyncStatusResponse, TakePictureResponse,
};

const UUID: u128 = 0x67e5504410b1426f9247bb680e5fe0c8;
const UUID_TEXT: &str = "67e55044-10b1-426f-9247-bb680e5fe0c8";

fn take(r: &Option<CameraResponse>) -> (bool, &TakePictureResponse) {
    match r {
        Some(CameraResponse::TakePicture { response }) => (response.success, &response.value),
        _ => panic!("expected a take-picture report"),
    }
}

fn send(r: &Option<CameraResponse>) -> (bool, &SendPictureResponse) {
    match r {
        Some(CameraResponse::SendPicture { response }) => (response.success, &response.value),
        _ => panic!("expected a send-picture report"),
    }
}

#[test]
fn decimal_text_values() {
    assert_eq!(decimal_text(0), "0");
    assert_eq!(decimal_text(7), "7");
    assert_eq!(decimal_text(1234567890), "1234567890");
    assert_eq!(decimal_text(u64::MAX), "18446744073709551615");
}

#[test]
fn file_names_follow_request_and_device() {
    assert_eq!(get_filename(UUID, "A0"), format!("{}_A0.jpg", UUID_TEXT));
    assert_eq!(get_metadata_filename(UUID, "A0"), format!("{}_A0_metadata.json", UUID_TEXT));
    assert_eq!(get_photos_path("x.jpg"), "photos/x.jpg");
}

#[test]
fn schedule_in_future_gives_monotonic_deadline() {
    // 50 ms ahead of the wall clock.
    let r = schedule_capture(1_000, 950_000_000, 10);
    assert_eq!(r, Schedule::At { deadline_ns: 50_000_010 });
}

#[test]
fn schedule_exactly_now_is_not_late() {
    assert_eq!(schedule_capture(2, 2_000_000, 5), Schedule::At { deadline_ns: 5 });
}

#[test]
fn schedule_in_past_is_late() {
    let r = schedule_capture(1_000, 1_001_000_000, 10);
    assert_eq!(r, Schedule::Late { late_by_ns: 1_000_000 });
}

#[test]
fn schedule_beyond_clock_range() {
    assert_eq!(schedule_capture(u64::MAX, 0, 0), Schedule::OutOfRange);
    assert_eq!(schedule_capture(0, 0, -5), Schedule::OutOfRange);
}

#[test]
fn late_message_text() {
    assert_eq!(late_text(1_000_000), "late by 1000000 ns");
}

#[test]
fn late_request_reports_schedule_failure_once() {
    let (mut p, reply, action) =
        CapturePipeline::start(UUID, 1_000, 1_001_000_000, 10, "A0".to_string(), "http://s".to_string());
    assert!(matches!(action, CaptureAction::Stop));
    assert_eq!(p.stage, CaptureStage::Finished);
    let (ok, value) = take(&reply);
    assert!(!ok);
    match value {
        TakePictureResponse::PictureFailedToSchedule { uuid, message } => {
            assert_eq!(*uuid, UUID);
            assert_eq!(message, "late by 1000000 ns");
        }
        _ => panic!("expected a schedule failure"),
    }
    for event in [CaptureEvent::Captured, CaptureEvent::Saved(vec![1]), CaptureEvent::Sent] {
        let (reply, action) = p.step(event);
        assert!(reply.is_none());
        assert!(matches!(action, CaptureAction::Nothing));
    }
}

#[test]
fn take_picture_scenario_reports_taken_saved_sent() {
    let now_ms: u64 = 1_700_000_000_000;
    let wall = (now_ms * 1_000_000) as i64;
    let (mut p, reply, action) =
        CapturePipeline::start(UUID, now_ms + 50, wall, 7, "A0".to_string(), "http://s".to_string());
    assert!(reply.is_none());
    assert!(matches!(action, CaptureAction::Capture { deadline_ns: 50_000_007 }));

    let (reply, action) = p.step(CaptureEvent::Captured);
    assert!(matches!(take(&reply), (true, TakePictureResponse::PictureTaken { uuid: UUID })));
    assert!(matches!(action, CaptureAction::Encode));

    let (reply, action) = p.step(CaptureEvent::Encoded(vec![0xFF, 0xD8]));
    assert!(reply.is_none());
    match action {
        CaptureAction::Save { jpeg, image_path, metadata_path } => {
            assert_eq!(jpeg, vec![0xFF, 0xD8]);
            assert_eq!(image_path, format!("photos/{}_A0.jpg", UUID_TEXT));
            assert_eq!(metadata_path, format!("photos/{}_A0_metadata.json", UUID_TEXT));
        }
        _ => panic!("expected a save"),
    }

    let (reply, action) = p.step(CaptureEvent::Saved(vec![0xFF, 0xD8]));
    assert!(matches!(take(&reply), (true, TakePictureResponse::PictureSavedOnDevice { uuid: UUID })));
    match action {
        CaptureAction::Upload { jpeg, url, file_name, metadata_path } => {
            assert_eq!(jpeg, vec![0xFF, 0xD8]);
            assert_eq!(url, "http://s/uploadimage");
            assert_eq!(file_name, format!("{}_A0.jpg", UUID_TEXT));
            assert_eq!(metadata_path, format!("photos/{}_A0_metadata.json", UUID_TEXT));
        }
        _ => panic!("expected an upload"),
    }

    let (reply, action) = p.step(CaptureEvent::Sent);
    assert!(matches!(send(&reply), (true, SendPictureResponse::PictureSent { uuid: UUID })));
    assert!(matches!(action, CaptureAction::Stop));
    assert_eq!(p.stage, CaptureStage::Finished);
}

#[test]
fn capture_failure_ends_request() {
    let (mut p, _, _) = CapturePipeline::start(UUID, 10, 0, 0, "A0".to_string(), "u".to_string());
    let (reply, action) = p.step(CaptureEvent::CaptureFailed("camera busy".to_string()));
    match take(&reply) {
        (false, TakePictureResponse::PictureFailedToTake { uuid, message }) => {
            assert_eq!(*uuid, UUID);
            assert_eq!(message, "camera busy");
        }
        _ => panic!("expected a take failure"),
    }
    assert!(matches!(action, CaptureAction::Stop));
    let (reply, _) = p.step(CaptureEvent::Sent);
    assert!(reply.is_none());
}

#[test]
fn save_failure_never_sends() {
    let (mut p, _, _) = CapturePipeline::start(UUID, 10, 0, 0, "A0".to_string(), "u".to_string());
    p.step(CaptureEvent::Captured);
    p.step(CaptureEvent::Encoded(vec![1, 2]));
    let (reply, action) = p.step(CaptureEvent::SaveFailed("disk full".to_string()));
    assert!(matches!(take(&reply), (false, TakePictureResponse::PictureFailedToSave { .. })));
    assert!(matches!(action, CaptureAction::Stop));
    let (reply, action) = p.step(CaptureEvent::Sent);
    assert!(reply.is_none());
    assert!(matches!(action, CaptureAction::Nothing));
}

#[test]
fn encode_failure_is_reported_as_failed() {
    let (mut p, _, _) = CapturePipeline::start(UUID, 10, 0, 0, "A0".to_string(), "u".to_string());
    p.step(CaptureEvent::Captured);
    let (reply, _) = p.step(CaptureEvent::EncodeFailed("bad data".to_string()));
    assert!(matches!(take(&reply), (false, TakePictureResponse::Failed { .. })));
}

#[test]
fn send_failure_reported() {
    let (mut p, _, _) = CapturePipeline::start(UUID, 10, 0, 0, "A0".to_string(), "u".to_string());
    p.step(CaptureEvent::Captured);
    p.step(CaptureEvent::Encoded(vec![1]));
    p.step(CaptureEvent::Saved(vec![1]));
    let (reply, action) = p.step(upload_event(500, "500 Internal Server Error".to_string()));
    match send(&reply) {
        (false, SendPictureResponse::PictureFailedToSend { message, .. }) => {
            assert_eq!(message, "500 Internal Server Error")
        }
        _ => panic!("expected a send failure"),
    }
    assert!(matches!(action, CaptureAction::Stop));
}

#[test]
fn upload_status_decides_outcome() {
    assert!(matches!(upload_event(200, "200 OK".to_string()), CaptureEvent::Sent));
    assert!(matches!(upload_event(299, "299".to_string()), CaptureEvent::Sent));
    assert!(matches!(upload_event(300, "300".to_string()), CaptureEvent::SendFailed(_)));
    assert!(matches!(upload_event(199, "199".to_string()), CaptureEvent::SendFailed(_)));
}

#[test]
fn send_saved_picture_reads_then_uploads() {
    let (mut p, action) = CapturePipeline::start_send(UUID, "B2".to_string(), "http://s".to_string());
    match action {
        CaptureAction::Read { image_path, metadata_path } => {
            assert_eq!(image_path, format!("photos/{}_B2.jpg", UUID_TEXT));
            assert_eq!(metadata_path, format!("photos/{}_B2_metadata.json", UUID_TEXT));
        }
        _ => panic!("expected a read"),
    }
    let (reply, action) = p.step(CaptureEvent::Read(vec![9]));
    assert!(reply.is_none());
    assert!(matches!(action, CaptureAction::Upload { .. }));
    let (reply, _) = p.step(CaptureEvent::Sent);
    assert!(matches!(send(&reply), (true, SendPictureResponse::PictureSent { uuid: UUID })));
}

#[test]
fn send_saved_picture_missing_file() {
    let (mut p, _) = CapturePipeline::start_send(UUID, "B2".to_string(), "u".to_string());
    let (reply, action) = p.step(CaptureEvent::ReadFailed("not found".to_string()));
    assert!(matches!(send(&reply), (false, SendPictureResponse::PictureFailedToRead { .. })));
    assert!(matches!(action, CaptureAction::Stop));
}

#[test]
fn encode_short_data_fails() {
    assert!(encode_picture(&vec![0u8; 11], 2, 2).is_err());
}

#[test]
fn encode_zero_size_fails() {
    assert!(encode_picture(&vec![0u8; 12], 0, 2).is_err());
    assert!(encode_picture(&vec![], 2, 0).is_err());
}

#[test]
fn encode_extra_samples_succeeds() {
    assert!(encode_picture(&vec![7u8; 20], 2, 2).is_ok());
}

#[test]
fn uuid_text_of_small_ids() {
    assert_eq!(get_filename(0, "A0"), "00000000-0000-0000-0000-000000000000_A0.jpg");
    assert_eq!(get_filename(0xab, "A0"), "00000000-0000-0000-0000-0000000000ab_A0.jpg");
}

#[test]
fn encode_gives_jpeg_file() {
    let pixels = vec![128u8; 2 * 2 * 3];
    let jpeg = encode_picture(&pixels, 2, 2).unwrap();
    assert_ne!(jpeg, pixels);
    assert_eq!(&jpeg[..2], &[0xFF, 0xD8]);
    assert_eq!(&jpeg[jpeg.len() - 2..], &[0xFF, 0xD9]);
}

#[test]
fn sync_status_replies() {
    match sync_status_reply(Ok((true, 42))) {
        CameraResponse::SyncStatus { response } => {
            assert!(response.success);
            assert!(matches!(response.value, SyncStatusResponse::Success { sync_ready: true, sync_timing: 42 }));
        }
        _ => panic!("expected a sync report"),
    }
    match sync_status_reply(Err("no camera".to_string())) {
        CameraResponse::SyncStatus { response } => {
            assert!(!response.success);
            assert!(matches!(response.value, SyncStatusResponse::Failed { .. }));
        }
        _ => panic!("expected a sync report"),
    }
}
