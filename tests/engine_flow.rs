use rovel::api::{TaskInfo, WsEvent};
use rovel::engine::{ApiRequest, ApiResponse, AudioCommand, Effect, Engine, WsConnectionState, WsRequest, WsResponse};
use rovel::state::{PlaybackState, TaskState};
use uuid::Uuid;

const NOVEL: u128 = 0x11;
const VOICE: u128 = 0x22;

fn started(total: u32, start: u32) -> Engine {
    let mut e = Engine::new();
    e.set_total_segments(total);
    e.on_play_started("s1".to_string(), Uuid::from_u128(NOVEL), Uuid::from_u128(VOICE), start, 0);
    e
}

fn submitted(effs: &[Effect]) -> Vec<u32> {
    let mut out = Vec::new();
    for e in effs {
        if let Effect::Api(ApiRequest::SubmitInfer { segment_indices, .. }) = e {
            out.extend_from_slice(segment_indices);
        }
    }
    out
}

fn ready_push(session: &str, index: u32) -> WsEvent {
    WsEvent::TaskStateChanged {
        session_id: session.to_string(),
        task_id: format!("t{}", index),
        segment_index: index,
        state: "ready".to_string(),
        duration_ms: None,
        error: None,
    }
}

fn is_load_audio(e: &Effect, index: u32) -> bool {
    matches!(e, Effect::Api(ApiRequest::LoadAudio { segment_index, novel_id, voice_id })
        if *segment_index == index && *novel_id == Uuid::from_u128(NOVEL) && *voice_id == Uuid::from_u128(VOICE))
}

#[test]
fn play_started_opens_channel_and_submits_window() {
    let mut e = Engine::new();
    e.set_total_segments(10);
    let effs = e.on_play_started("s1".to_string(), Uuid::from_u128(NOVEL), Uuid::from_u128(VOICE), 0, 5);
    assert_eq!(effs.len(), 2);
    assert!(matches!(&effs[0], Effect::Ws(WsRequest::Connect(s)) if s == "s1"));
    match &effs[1] {
        Effect::Api(ApiRequest::SubmitInfer { session_id, segment_indices }) => {
            assert_eq!(session_id, "s1");
            assert_eq!(segment_indices, &vec![0, 1, 2, 3]);
        }
        other => panic!("unexpected {:?}", other),
    }
    assert_eq!(e.playback_state, PlaybackState::Loading);
    assert!(e.waiting_for_audio);
    assert_eq!(e.task_count(), 4);
    for i in 0..4u32 {
        assert_eq!(e.task_state_of(i), Some(TaskState::Pending));
    }
    assert_eq!(e.current_session.as_ref().unwrap().session_id, "s1");
}

#[test]
fn push_ready_off_cursor_fetches_nothing() {
    let mut e = started(10, 0);
    let effs = e.on_task_state_changed(ready_push("s1", 2), 10);
    assert!(effs.is_empty());
    assert_eq!(e.task_state_of(2), Some(TaskState::Ready));
    for i in [0u32, 1, 3] {
        assert_eq!(e.task_state_of(i), Some(TaskState::Pending));
    }
    assert_eq!(e.playback_state, PlaybackState::Loading);
}

#[test]
fn push_ready_at_cursor_fetches_audio_then_plays() {
    let mut e = started(10, 0);
    let effs = e.on_task_state_changed(ready_push("s1", 0), 10);
    assert_eq!(effs.len(), 1);
    assert!(is_load_audio(&effs[0], 0));
    let effs = e.on_audio_loaded(0, vec![1, 2, 3]);
    assert_eq!(effs.len(), 1);
    assert!(matches!(&effs[0], Effect::Audio(AudioCommand::Play(d)) if d == &vec![1u8, 2, 3]));
    assert_eq!(e.playback_state, PlaybackState::Playing);
    assert!(!e.waiting_for_audio);
}

#[test]
fn stale_session_push_is_dropped_by_engine() {
    let mut e = started(10, 0);
    let effs = e.on_task_state_changed(ready_push("old", 0), 10);
    assert!(effs.is_empty());
    assert_eq!(e.task_state_of(0), Some(TaskState::Pending));
    assert_eq!(e.task_count(), 4);
}

#[test]
fn cached_ready_ack_fetches_cursor_audio() {
    let mut e = started(10, 0);
    let tasks = vec![
        TaskInfo { task_id: "a".to_string(), segment_index: 0, state: "ready".to_string() },
        TaskInfo { task_id: "b".to_string(), segment_index: 1, state: "pending".to_string() },
    ];
    let effs = e.on_infer_submitted(tasks);
    assert_eq!(effs.len(), 1);
    assert!(is_load_audio(&effs[0], 0));
    assert_eq!(e.task_state_of(0), Some(TaskState::Ready));
    assert_eq!(e.task_manager.tasks[&0].task_id, "a");
    assert_eq!(e.task_manager.tasks[&1].task_id, "b");
}

#[test]
fn ack_ready_off_cursor_fetches_nothing() {
    let mut e = started(10, 0);
    let effs = e.on_infer_submitted(vec![TaskInfo {
        task_id: "c".to_string(),
        segment_index: 3,
        state: "ready".to_string(),
    }]);
    assert!(effs.is_empty());
    assert_eq!(e.task_state_of(3), Some(TaskState::Ready));
}

#[test]
fn finished_at_last_segment_stops() {
    let mut e = started(10, 9);
    e.on_audio_loaded(9, vec![0]);
    assert_eq!(e.playback_state, PlaybackState::Playing);
    let before = e.task_count();
    let effs = e.handle_audio_finished(100);
    assert!(effs.is_empty());
    assert_eq!(e.playback_state, PlaybackState::Stopped);
    assert_eq!(e.current_segment_index, 9);
    assert_eq!(e.task_count(), before);
}

#[test]
fn finished_moves_to_a_ready_segment_at_once() {
    let mut e = started(10, 0);
    e.on_task_state_changed(ready_push("s1", 1), 1);
    e.on_audio_loaded(0, vec![0]);
    let effs = e.handle_audio_finished(100);
    assert_eq!(e.current_segment_index, 1);
    assert_eq!(e.current_session.as_ref().unwrap().current_index, 1);
    assert!(is_load_audio(&effs[0], 1));
    assert_eq!(submitted(&effs), vec![4]);
    assert_eq!(e.playback_state, PlaybackState::Playing);
    assert_eq!(e.task_state_of(4), Some(TaskState::Pending));
}

#[test]
fn finished_waits_for_a_segment_not_ready() {
    let mut e = started(10, 0);
    e.on_audio_loaded(0, vec![0]);
    let effs = e.handle_audio_finished(100);
    assert_eq!(e.current_segment_index, 1);
    assert_eq!(e.playback_state, PlaybackState::Loading);
    assert!(e.waiting_for_audio);
    assert_eq!(effs.len(), 1);
    assert_eq!(submitted(&effs), vec![4]);
}

#[test]
fn finished_outside_playing_is_ignored() {
    let mut e = started(10, 0);
    let effs = e.handle_audio_finished(100);
    assert!(effs.is_empty());
    assert_eq!(e.current_segment_index, 0);
    assert_eq!(e.playback_state, PlaybackState::Loading);
}

#[test]
fn seek_clears_table_before_new_window() {
    let mut e = started(20, 0);
    assert_eq!(e.task_count(), 4);
    e.on_task_state_changed(ready_push("s1", 1), 1);
    let effs = e.on_seek_completed("s1".to_string(), 10, 50);
    assert_eq!(submitted(&effs), vec![10, 11, 12, 13]);
    assert_eq!(e.task_count(), 4);
    for i in 0..4u32 {
        assert_eq!(e.task_state_of(i), None);
    }
    for i in 10..14u32 {
        assert_eq!(e.task_state_of(i), Some(TaskState::Pending));
        assert_eq!(e.task_manager.tasks[&i].created_at, 50);
    }
    assert_eq!(e.current_segment_index, 10);
    assert_eq!(e.current_session.as_ref().unwrap().current_index, 10);
    assert_eq!(e.playback_state, PlaybackState::Loading);
}

#[test]
fn seek_ack_of_another_session_is_ignored() {
    let mut e = started(20, 0);
    let effs = e.on_seek_completed("other".to_string(), 10, 50);
    assert!(effs.is_empty());
    assert_eq!(e.current_segment_index, 0);
    assert_eq!(e.task_count(), 4);
}

#[test]
fn voice_change_resubmits_at_same_cursor() {
    let mut e = started(20, 5);
    let effs = e.on_voice_changed("s1".to_string(), Uuid::from_u128(0x33), 9);
    assert_eq!(submitted(&effs), vec![5, 6, 7, 8]);
    assert_eq!(e.current_session.as_ref().unwrap().voice_id, Uuid::from_u128(0x33));
    assert_eq!(e.current_segment_index, 5);
    assert_eq!(e.playback_state, PlaybackState::Loading);
}

#[test]
fn close_ack_clears_everything() {
    let mut e = started(20, 5);
    let effs = e.on_session_closed();
    assert!(matches!(&effs[..], [Effect::Ws(WsRequest::Disconnect)]));
    assert!(e.current_session.is_none());
    assert_eq!(e.task_count(), 0);
    assert_eq!(e.playback_state, PlaybackState::Stopped);
}

#[test]
fn server_close_of_active_session_stops_and_reports() {
    let mut e = started(20, 5);
    let effs = e.on_session_closed_by_server("s1".to_string(), "timeout".to_string(), 77);
    assert!(matches!(&effs[..], [Effect::Audio(AudioCommand::Stop)]));
    assert!(e.current_session.is_none());
    assert_eq!(e.task_count(), 0);
    assert_eq!(e.playback_state, PlaybackState::Stopped);
    assert_eq!(e.error.as_deref(), Some("Session closed by server: timeout"));
    assert_eq!(e.error_since, 77);
}

#[test]
fn server_close_of_another_session_is_ignored() {
    let mut e = started(20, 5);
    let effs = e.on_session_closed_by_server("s0".to_string(), "timeout".to_string(), 77);
    assert!(effs.is_empty());
    assert!(e.current_session.is_some());
    assert_eq!(e.task_count(), 4);
}

#[test]
fn pause_resume_stop_follow_the_machine() {
    let mut e = started(20, 0);
    assert!(e.pause_pressed().is_empty());
    e.on_audio_loaded(0, vec![0]);
    assert!(matches!(&e.pause_pressed()[..], [Effect::Audio(AudioCommand::Pause)]));
    assert_eq!(e.playback_state, PlaybackState::Paused);
    assert!(matches!(&e.resume_pressed()[..], [Effect::Audio(AudioCommand::Resume)]));
    assert_eq!(e.playback_state, PlaybackState::Playing);
    assert!(matches!(&e.stop_pressed()[..], [Effect::Audio(AudioCommand::Stop)]));
    assert_eq!(e.playback_state, PlaybackState::Stopped);
    assert!(e.stop_pressed().is_empty());
    assert!(e.resume_pressed().is_empty());
}

#[test]
fn play_from_stopped_with_ready_cursor_fetches_audio() {
    let mut e = started(20, 0);
    e.on_task_state_changed(ready_push("s1", 0), 1);
    e.stop_pressed();
    let effs = e.play_pressed(5);
    assert_eq!(effs.len(), 1);
    assert!(is_load_audio(&effs[0], 0));
    assert_eq!(e.playback_state, PlaybackState::Loading);
}

#[test]
fn play_from_stopped_refills_a_purged_window() {
    let mut e = started(20, 0);
    e.stop_pressed();
    e.cleanup_tick(100_000);
    assert_eq!(e.task_count(), 0);
    let effs = e.play_pressed(100_001);
    assert_eq!(submitted(&effs), vec![0, 1, 2, 3]);
    assert_eq!(effs.len(), 1);
    assert_eq!(e.playback_state, PlaybackState::Loading);
    assert!(e.play_pressed(100_002).is_empty());
}

#[test]
fn intents_name_the_active_session() {
    let e = started(20, 3);
    let effs = e.seek_pressed(7);
    assert!(matches!(&effs[0], Effect::Audio(AudioCommand::Stop)));
    assert!(matches!(&effs[1], Effect::Api(ApiRequest::Seek { session_id, segment_index: 7 }) if session_id == "s1"));
    let effs = e.close_pressed();
    assert!(matches!(&effs[1], Effect::Api(ApiRequest::CloseSession(s)) if s == "s1"));
    let effs = e.change_voice_pressed(Uuid::from_u128(5));
    assert!(matches!(&effs[..], [Effect::Api(ApiRequest::ChangeVoice { session_id, voice_id })]
        if session_id == "s1" && *voice_id == Uuid::from_u128(5)));
    let idle = Engine::new();
    assert!(idle.seek_pressed(1).is_empty());
    assert!(idle.close_pressed().is_empty());
    assert!(idle.change_voice_pressed(Uuid::from_u128(5)).is_empty());
}

#[test]
fn prefetch_tick_resubmits_purged_entries() {
    let mut e = started(20, 0);
    assert!(e.prefetch_tick(10).is_empty());
    e.cleanup_tick(40_000);
    assert_eq!(e.task_count(), 0);
    let effs = e.prefetch_tick(40_001);
    assert_eq!(submitted(&effs), vec![0, 1, 2, 3]);
    e.stop_pressed();
    e.cleanup_tick(100_000);
    assert!(e.prefetch_tick(100_001).is_empty());
}

#[test]
fn errors_expire_after_their_display_time() {
    let mut e = Engine::new();
    e.set_error("boom".to_string(), 1_000);
    e.expire_error(3_999);
    assert_eq!(e.error.as_deref(), Some("boom"));
    e.expire_error(4_000);
    assert!(e.error.is_none());
}

#[test]
fn dispatchers_route_each_report() {
    let mut e = started(10, 0);
    let effs = e.handle_ws_response(WsResponse::TaskStateChanged(ready_push("s1", 0)), 3);
    assert!(is_load_audio(&effs[0], 0));
    e.handle_ws_response(WsResponse::Connected, 4);
    assert_eq!(e.ws_state, WsConnectionState::Connected);
    e.handle_ws_response(WsResponse::Error("reset".to_string()), 5);
    assert_eq!(e.ws_state, WsConnectionState::Disconnected);
    let effs = e.handle_api_response(
        ApiResponse::AudioLoaded { novel_id: Uuid::from_u128(NOVEL), segment_index: 0, data: vec![9] },
        6,
    );
    assert_eq!(effs.len(), 1);
    assert_eq!(e.playback_state, PlaybackState::Playing);
    e.handle_api_response(ApiResponse::Error("HTTP POST error".to_string()), 7);
    assert_eq!(e.error.as_deref(), Some("HTTP POST error"));
    e.handle_api_response(ApiResponse::AudioNotReady { novel_id: Uuid::from_u128(NOVEL), segment_index: 0 }, 8);
    assert!(e.waiting_for_audio);
    let effs = e.handle_api_response(ApiResponse::SessionClosed("s1".to_string()), 9);
    assert_eq!(effs.len(), 1);
    assert!(e.current_session.is_none());
}
