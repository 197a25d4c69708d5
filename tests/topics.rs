use pizerocamera::{
    get_column_receive_topic, get_download_update_url, get_individual_receive_topic,
    get_individual_send_topic, get_receive_topics, get_row_receive_topic, get_upload_image_url,
    topic_is_global_or_individual, Publish,
};

#[test]
fn individual_receive_topic_joins_with_slash() {
    assert_eq!(get_individual_receive_topic("camera", "A0"), "camera/A0");
}

#[test]
fn row_topic_uses_first_character() {
    assert_eq!(get_row_receive_topic("camera", "B3"), "camera/B");
}

#[test]
fn column_topic_uses_second_character() {
    assert_eq!(get_column_receive_topic("camera", "B3"), "camera/3");
}

#[test]
fn send_topic_is_answer_channel() {
    assert_eq!(get_individual_send_topic("update", "A0"), "update/answer/A0");
}

#[test]
fn receive_topics_in_order() {
    let topics = get_receive_topics("camera", "C7");
    assert_eq!(topics, vec!["camera/C7", "camera/7", "camera/C", "camera"]);
}

#[test]
fn own_individual_topic_matches() {
    let own = get_individual_receive_topic("camera", "A0");
    assert!(topic_is_global_or_individual(&own, "camera", "A0"));
}

#[test]
fn other_device_individual_topic_does_not_match() {
    let other = get_individual_receive_topic("camera", "A1");
    assert!(!topic_is_global_or_individual(&other, "camera", "A0"));
}

#[test]
fn global_topic_matches_every_device() {
    let p = Publish { topic: "camera".to_string(), payload: vec![] };
    assert!(p.is_global_or_individual("camera", "A0"));
    assert!(p.is_global_or_individual("camera", "Z9"));
}

#[test]
fn group_topics_are_not_matched() {
    let row = Publish { topic: "camera/A".to_string(), payload: vec![] };
    assert!(!row.is_global_or_individual("camera", "A0"));
    let other_topic = Publish { topic: "update/A0".to_string(), payload: vec![] };
    assert!(!other_topic.is_global_or_individual("camera", "A0"));
}

#[test]
fn endpoint_urls() {
    assert_eq!(get_download_update_url("http://host:8000"), "http://host:8000/downloadupdate");
    assert_eq!(get_upload_image_url("http://host:8000"), "http://host:8000/uploadimage");
}
