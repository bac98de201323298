use rovel::api::{default_status, session_channel_url, ApiClient, ApiError, ApiResponse, EmptyData, RequestBody};
use rovel::audio::{AudioStatus, FinishSignal};
use uuid::Uuid;

#[test]
fn envelope_with_data_is_ok() {
    let r = ApiResponse { errno: 0, error: String::new(), data: Some(7u32) }.into_result();
    assert_eq!(r, Ok(7));
}

#[test]
fn envelope_without_data_is_no_data() {
    let r = ApiResponse::<u32> { errno: 0, error: String::new(), data: None }.into_result();
    assert_eq!(r, Err(ApiError::NoData));
}

#[test]
fn envelope_with_errno_is_api_error() {
    let r = ApiResponse { errno: 404, error: "session not found".to_string(), data: Some(EmptyData {}) }.into_result();
    match r {
        Err(ApiError::Api { errno, message }) => {
            assert_eq!(errno, 404);
            assert_eq!(message, "session not found");
        }
        _ => panic!("expected an API error"),
    }
}

#[test]
fn default_status_is_ready() {
    assert_eq!(default_status(), "ready");
}

#[test]
fn calls_go_to_their_endpoints() {
    let c = ApiClient::new("http://host:5060/api".to_string());
    let call = c.seek("s1", 4);
    assert_eq!(call.url, "http://host:5060/api/session/seek");
    assert!(matches!(call.body, RequestBody::Seek { ref session_id, segment_index: 4 } if session_id == "s1"));
    let call = c.close_session("s1");
    assert_eq!(call.url, "http://host:5060/api/session/close");
    assert!(matches!(call.body, RequestBody::CloseSession { ref session_id } if session_id == "s1"));
    let call = c.submit_infer("s1", vec![1, 2]);
    assert_eq!(call.url, "http://host:5060/api/infer/submit");
    assert!(matches!(call.body, RequestBody::SubmitInfer { ref segment_indices, .. } if segment_indices == &vec![1, 2]));
    let call = c.query_task_status(vec!["t1".to_string()]);
    assert_eq!(call.url, "http://host:5060/api/infer/status");
    let call = c.play(Uuid::from_u128(1), Uuid::from_u128(2), 3);
    assert_eq!(call.url, "http://host:5060/api/session/play");
    assert!(matches!(call.body, RequestBody::Play { start_index: 3, .. }));
    let call = c.change_voice("s1", Uuid::from_u128(2));
    assert_eq!(call.url, "http://host:5060/api/session/change_voice");
    let call = c.get_audio(Uuid::from_u128(1), 8, Uuid::from_u128(2));
    assert_eq!(call.url, "http://host:5060/api/audio");
    assert!(matches!(call.body, RequestBody::GetAudio { segment_index: 8, .. }));
}

#[test]
fn channel_url_joins_base_and_session() {
    let u = session_channel_url("ws://192.168.2.31:5060/ws", "abc-1").unwrap();
    assert_eq!(u.as_str(), "ws://192.168.2.31:5060/ws/session/abc-1");
}

#[test]
fn channel_url_without_scheme_is_invalid() {
    assert_eq!(session_channel_url("no scheme here", "abc").unwrap_err(), ApiError::InvalidUrl);
}

#[test]
fn finished_is_signalled_once_per_track() {
    let mut f = FinishSignal::new();
    assert!(!f.check_finished());
    f.record_status(AudioStatus::Playing);
    assert!(!f.check_finished());
    f.record_status(AudioStatus::Finished);
    assert!(f.check_finished());
    assert!(!f.check_finished());
    f.record_status(AudioStatus::Finished);
    assert!(!f.check_finished());
    f.on_play();
    assert!(!f.check_finished());
    f.record_status(AudioStatus::Finished);
    assert!(f.check_finished());
}
