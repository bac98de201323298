//! The playback engine: one owner of the session, the task table and the
//! playback state, fed one fact at a time (answers of the service, push
//! notifications, the audio worker's signals, the user's intents) and
//! answering each with the effects that its collaborators must carry out.

use vstd::prelude::*;

use crate::api::{TaskInfo, TaskStatusInfo, WsEvent};
use crate::state::{
    acked_all, is_needed, lists_needed, pending_added, push_applied, same_text, stale_purged,
    CurrentSession, PlaybackState, SegmentTask, TaskManager, TaskState,
};

verus! {

/// How many segments past the cursor are kept in synthesis.
pub const PREFETCH_AHEAD: u32 = 3;

/// How long a Pending entry may wait for news before it is dropped.
pub const PENDING_TIMEOUT_MS: u64 = 30000;

/// How long an error message stays up.
pub const ERROR_DISPLAY_MS: u64 = 3000;

/// A call that the engine asks the transport to make.
#[derive(Debug)]
pub enum ApiRequest {
    Play { novel_id: uuid::Uuid, voice_id: uuid::Uuid, start_index: u32 },
    Seek { session_id: String, segment_index: u32 },
    ChangeVoice { session_id: String, voice_id: uuid::Uuid },
    CloseSession(String),
    SubmitInfer { session_id: String, segment_indices: Vec<u32> },
    QueryTaskStatus { task_ids: Vec<String> },
    LoadAudio { novel_id: uuid::Uuid, segment_index: u32, voice_id: uuid::Uuid },
}

/// A command for the audio worker.
#[derive(Debug)]
pub enum AudioCommand {
    Play(Vec<u8>),
    Stop,
    Pause,
    Resume,
}

/// A command for the push channel.
#[derive(Debug)]
pub enum WsRequest {
    Connect(String),
    Disconnect,
}

/// What the engine asks of a collaborator.
#[derive(Debug)]
pub enum Effect {
    Api(ApiRequest),
    Audio(AudioCommand),
    Ws(WsRequest),
}

/// An answer of the service, as the transport hands it back.
#[derive(Debug)]
#[allow(inconsistent_fields)]
pub enum ApiResponse {
    PlayStarted { session_id: String, novel_id: uuid::Uuid, voice_id: uuid::Uuid, current_index: u32 },
    SeekCompleted { session_id: String, current_index: u32, cancelled_tasks: usize },
    VoiceChanged { session_id: String, voice_id: uuid::Uuid, cancelled_tasks: usize },
    SessionClosed(String),
    InferSubmitted { tasks: Vec<TaskInfo> },
    TaskStatusQueried { tasks: Vec<TaskStatusInfo> },
    AudioLoaded { novel_id: uuid::Uuid, segment_index: u32, data: Vec<u8> },
    AudioNotReady { novel_id: uuid::Uuid, segment_index: u32 },
    Error(String),
}

/// What the push channel hands back.
#[derive(Debug)]
pub enum WsResponse {
    Connected,
    Disconnected,
    TaskStateChanged(WsEvent),
    SessionClosedByServer { session_id: String, reason: String },
    Error(String),
}

/// The push channel's connection, for display.
#[derive(Debug, Clone, Copy, PartialEq, Eq, Structural)]
pub enum WsConnectionState {
    Disconnected,
    Connecting,
    Connected,
    Reconnecting,
}

/// No index of the window lacks an entry.
pub open spec fn window_full(cursor: u32, ahead: u32, total: u32, dom: Set<u32>) -> bool {
    forall|i: u32| !is_needed(i as int, cursor, ahead, total, dom)
}

/// How many effects a refill of the window gives: one submission, or none.
pub open spec fn refill_len(cursor: u32, ahead: u32, total: u32, dom: Set<u32>) -> int {
    if window_full(cursor, ahead, total, dom) {
        0
    } else {
        1
    }
}

/// `e` submits, for session `sid`, exactly the indices that the window
/// needed in `before`, and `after` is `before` with those entries added.
pub open spec fn submits_window(
    e: Effect,
    before: Map<u32, SegmentTask>,
    after: Map<u32, SegmentTask>,
    sid: Seq<char>,
    cursor: u32,
    ahead: u32,
    total: u32,
    now: u64,
) -> bool {
    match e {
        Effect::Api(ApiRequest::SubmitInfer { session_id, segment_indices }) => {
            &&& session_id@ == sid
            &&& segment_indices@.len() > 0
            &&& lists_needed(segment_indices@, cursor, ahead, total, before.dom())
            &&& pending_added(before, after, sid, segment_indices@, now)
        },
        _ => false,
    }
}

/// The window at `cursor` was refilled: when it was full nothing happened;
/// otherwise `effs` is the one submission of what it needed.
pub open spec fn refilled(
    before: Map<u32, SegmentTask>,
    after: Map<u32, SegmentTask>,
    effs: Seq<Effect>,
    sid: Seq<char>,
    cursor: u32,
    ahead: u32,
    total: u32,
    now: u64,
) -> bool {
    if window_full(cursor, ahead, total, before.dom()) {
        &&& after == before
        &&& effs.len() == 0
    } else {
        &&& effs.len() == 1
        &&& submits_window(effs[0], before, after, sid, cursor, ahead, total, now)
    }
}

/// The audio request for segment `k` of the session `s`.
pub open spec fn load_audio(s: CurrentSession, k: u32) -> Effect {
    Effect::Api(ApiRequest::LoadAudio { novel_id: s.novel_id, segment_index: k, voice_id: s.voice_id })
}

/// Whether the table holds a Ready entry at `k`.
pub open spec fn ready_at(m: Map<u32, SegmentTask>, k: u32) -> bool {
    m.contains_key(k) && m[k].state == TaskState::Ready
}

/// The session, as far as the engine's decisions go, is the same one.
pub open spec fn same_session(a: CurrentSession, b: CurrentSession) -> bool {
    &&& a.session_id@ == b.session_id@
    &&& a.novel_id == b.novel_id
    &&& a.voice_id == b.voice_id
}

/// The session id, when there is a session.
pub open spec fn session_text(s: Option<CurrentSession>) -> Option<Seq<char>> {
    match s {
        Some(c) => Some(c.session_id@),
        None => None,
    }
}

/// Refills the window at `cursor` for `session_id`: the indices that it needs
/// get Pending entries, and one submission names them all.
fn refill_window(
    tm: &mut TaskManager,
    session_id: &str,
    cursor: u32,
    total: u32,
    now: u64,
) -> (effs: Vec<Effect>)
    requires
        old(tm).wf(),
    ensures
        final(tm).wf(),
        final(tm).prefetch_ahead == old(tm).prefetch_ahead,
        refilled(old(tm)@, final(tm)@, effs@, session_id@, cursor, old(tm).prefetch_ahead, total, now),
{
    let indices = tm.calculate_prefetch_range(cursor, total);
    let mut effs: Vec<Effect> = Vec::new();
    if indices.len() > 0 {
        assert(is_needed(indices@[0] as int, cursor, tm.prefetch_ahead, total, tm@.dom()));
        tm.add_pending_tasks(session_id, indices.as_slice(), now);
        effs.push(
            Effect::Api(
                ApiRequest::SubmitInfer { session_id: session_id.to_owned(), segment_indices: indices },
            ),
        );
    } else {
        assert forall|i: u32| !is_needed(i as int, cursor, tm.prefetch_ahead, total, tm@.dom()) by {
            if is_needed(i as int, cursor, tm.prefetch_ahead, total, tm@.dom()) {
                assert(indices@.contains(i));
            }
        }
    }
    effs
}

/// After a successful play call: the new session at its start index, an
/// empty table refilled there, the push channel opened first.
pub open spec fn play_started_post(
    pre: Engine,
    post: Engine,
    effs: Seq<Effect>,
    session_id: String,
    novel_id: uuid::Uuid,
    voice_id: uuid::Uuid,
    current_index: u32,
    now: u64,
) -> bool {
    &&& post.current_session matches Some(s) && s.session_id@ == session_id@ && s.novel_id
        == novel_id && s.voice_id == voice_id
    &&& post.current_segment_index == current_index
    &&& post.playback_state == PlaybackState::Loading
    &&& post.waiting_for_audio
    &&& post.error is None
    &&& post.total_segments == pre.total_segments
    &&& post.ahead() == PREFETCH_AHEAD
    &&& effs.len() >= 1
    &&& effs[0] matches Effect::Ws(WsRequest::Connect(c)) && c@ == session_id@
    &&& refilled(
        Map::empty(),
        post.table(),
        effs.drop_first(),
        session_id@,
        current_index,
        PREFETCH_AHEAD,
        pre.total_segments,
        now,
        )
}

/// After a seek acknowledgement: for the active session, the cursor at the
/// new index and a table holding only the new window; otherwise no change.
pub open spec fn seek_completed_post(
    pre: Engine,
    post: Engine,
    effs: Seq<Effect>,
    session_id: String,
    current_index: u32,
    now: u64,
) -> bool {
    &&& post.error is None
    &&& session_text(pre.current_session) == Some(session_id@) ==> {
        &&& post.current_session matches Some(s) && same_session(
            s,
            pre.current_session->Some_0,
        )
        &&& post.current_segment_index == current_index
        &&& post.playback_state == PlaybackState::Loading
        &&& post.waiting_for_audio
        &&& post.total_segments == pre.total_segments
        &&& post.ahead() == pre.ahead()
        &&& refilled(
            Map::empty(),
            post.table(),
            effs,
            session_id@,
            current_index,
            pre.ahead(),
            pre.total_segments,
            now,
        )
    }
    &&& session_text(pre.current_session) != Some(session_id@) ==> {
        &&& post.current_session == pre.current_session
        &&& post.table() == pre.table()
        &&& post.current_segment_index == pre.current_segment_index
        &&& post.playback_state == pre.playback_state
        &&& effs.len() == 0
    }
}

/// After a voice-change acknowledgement: for the active session, the new
/// voice and a table holding only the window at the unchanged cursor.
pub open spec fn voice_changed_post(
    pre: Engine,
    post: Engine,
    effs: Seq<Effect>,
    session_id: String,
    voice_id: uuid::Uuid,
    now: u64,
) -> bool {
    &&& post.error is None
    &&& session_text(pre.current_session) == Some(session_id@) ==> {
        &&& post.current_session matches Some(s) && s.session_id@ == session_id@
            && s.novel_id == pre.current_session->Some_0.novel_id && s.voice_id == voice_id
        &&& post.current_segment_index == pre.current_segment_index
        &&& post.playback_state == PlaybackState::Loading
        &&& post.waiting_for_audio
        &&& post.total_segments == pre.total_segments
        &&& post.ahead() == pre.ahead()
        &&& refilled(
            Map::empty(),
            post.table(),
            effs,
            session_id@,
            pre.current_segment_index,
            pre.ahead(),
            pre.total_segments,
            now,
        )
    }
    &&& session_text(pre.current_session) != Some(session_id@) ==> {
        &&& post.current_session == pre.current_session
        &&& post.table() == pre.table()
        &&& post.current_segment_index == pre.current_segment_index
        &&& post.playback_state == pre.playback_state
        &&& effs.len() == 0
    }
}

/// After a close acknowledgement: no session, Stopped, an empty table.
pub open spec fn session_closed_post(
    pre: Engine,
    post: Engine,
    effs: Seq<Effect>,
) -> bool {
    &&& post.current_session is None
    &&& post.playback_state == PlaybackState::Stopped
    &&& post.table() == Map::<u32, SegmentTask>::empty()
    &&& post.ahead() == pre.ahead()
    &&& post.current_segment_index == pre.current_segment_index
    &&& post.total_segments == pre.total_segments
    &&& post.error is None
    &&& effs.len() == 1
    &&& effs[0] matches Effect::Ws(WsRequest::Disconnect)
}

/// After a submission acknowledgement: the batch applied in order, and the
/// cursor's audio requested when the batch reports it ready while awaited.
pub open spec fn infer_submitted_post(
    pre: Engine,
    post: Engine,
    effs: Seq<Effect>,
    tasks: Vec<TaskInfo>,
) -> bool {
    &&& post.table() == acked_all(pre.table(), tasks@)
    &&& post.current_session == pre.current_session
    &&& post.current_segment_index == pre.current_segment_index
    &&& post.playback_state == pre.playback_state
    &&& post.waiting_for_audio == pre.waiting_for_audio
    &&& post.total_segments == pre.total_segments
    &&& post.ahead() == pre.ahead()
    &&& post.error is None
    &&& ({
        let fetch = (exists|j: int|
            0 <= j < tasks@.len() && (#[trigger] tasks@[j]).segment_index
                == pre.current_segment_index && tasks@[j].state@ == "ready"@) && (
        pre.waiting_for_audio || pre.playback_state == PlaybackState::Loading)
            && pre.current_session is Some;
        &&& fetch ==> effs == seq![
            load_audio(pre.current_session->Some_0, pre.current_segment_index),
        ]
        &&& !fetch ==> effs.len() == 0
    })
}

/// After a push notification of a task: the table reconciled on behalf of
/// the active session, the cursor's audio requested when it became ready
/// while awaited.
pub open spec fn task_state_changed_post(
    pre: Engine,
    post: Engine,
    effs: Seq<Effect>,
    event: WsEvent,
    now: u64,
) -> bool {
    &&& post.same_but_table(pre)
    &&& match pre.current_session {
        Some(s) => push_applied(pre.table(), post.table(), s.session_id@, event, now),
        None => post.table() == pre.table(),
    }
    &&& ({
        let fetch = match event {
            WsEvent::TaskStateChanged { session_id, segment_index, state, .. } => {
                &&& session_text(pre.current_session) == Some(session_id@)
                &&& segment_index == pre.current_segment_index
                &&& state@ == "ready"@
                &&& pre.waiting_for_audio || pre.playback_state == PlaybackState::Loading
            },
            WsEvent::SessionClosed { .. } => false,
        };
        &&& fetch ==> effs == seq![
            load_audio(pre.current_session->Some_0, pre.current_segment_index),
        ]
        &&& !fetch ==> effs.len() == 0
    })
}

/// After the service closed a session: for the active one, everything
/// cleared, audio stopped and the reason shown; otherwise no change.
pub open spec fn closed_by_server_post(
    pre: Engine,
    post: Engine,
    effs: Seq<Effect>,
    session_id: String,
    reason: String,
    now: u64,
) -> bool {
    &&& session_text(pre.current_session) == Some(session_id@) ==> {
        &&& post.current_session is None
        &&& post.playback_state == PlaybackState::Stopped
        &&& post.table() == Map::<u32, SegmentTask>::empty()
        &&& post.ahead() == pre.ahead()
        &&& post.total_segments == pre.total_segments
        &&& post.current_segment_index == pre.current_segment_index
        &&& post.error matches Some(m) && m@ == "Session closed by server: "@ + reason@
        &&& post.error_since == now
        &&& effs.len() == 1
        &&& effs[0] matches Effect::Audio(AudioCommand::Stop)
    }
    &&& session_text(pre.current_session) != Some(session_id@) ==> {
        &&& post.same_but_table(pre)
        &&& post.table() == pre.table()
        &&& effs.len() == 0
    }
}

/// After audio arrived: it is played, and the cursor's makes playback Playing.
pub open spec fn audio_loaded_post(
    pre: Engine,
    post: Engine,
    effs: Seq<Effect>,
    segment_index: u32,
    data: Vec<u8>,
) -> bool {
    &&& effs == seq![Effect::Audio(AudioCommand::Play(data))]
    &&& post.current_session == pre.current_session
    &&& post.task_manager == pre.task_manager
    &&& post.current_segment_index == pre.current_segment_index
    &&& post.total_segments == pre.total_segments
    &&& post.error is None
    &&& segment_index == pre.current_segment_index ==> post.playback_state
        == PlaybackState::Playing && !post.waiting_for_audio
    &&& segment_index != pre.current_segment_index ==> post.playback_state
        == pre.playback_state && post.waiting_for_audio
        == pre.waiting_for_audio
}

/// After the service had no audio yet: the cursor's makes playback wait.
pub open spec fn audio_not_ready_post(
    pre: Engine,
    post: Engine,
    segment_index: u32,
) -> bool {
    &&& post.current_session == pre.current_session
    &&& post.task_manager == pre.task_manager
    &&& post.current_segment_index == pre.current_segment_index
    &&& post.playback_state == pre.playback_state
    &&& post.error == pre.error
    &&& post.waiting_for_audio == (pre.waiting_for_audio || segment_index
        == pre.current_segment_index)
}

/// Only the error (and when it was set) may differ.
pub open spec fn only_error_changed(pre: Engine, post: Engine) -> bool {
    &&& post.current_session == pre.current_session
    &&& post.task_manager == pre.task_manager
    &&& post.total_segments == pre.total_segments
    &&& post.current_segment_index == pre.current_segment_index
    &&& post.playback_state == pre.playback_state
    &&& post.waiting_for_audio == pre.waiting_for_audio
    &&& post.ws_state == pre.ws_state
}

/// What each answer of the service does, as its handler states it.
pub open spec fn api_response_post(
    pre: Engine,
    post: Engine,
    effs: Seq<Effect>,
    event: ApiResponse,
    now: u64,
) -> bool {
    match event {
        ApiResponse::PlayStarted { session_id, novel_id, voice_id, current_index } => play_started_post(
            pre,
            post,
            effs,
            session_id,
            novel_id,
            voice_id,
            current_index,
            now,
        ),
        ApiResponse::SeekCompleted { session_id, current_index, .. } => seek_completed_post(
            pre,
            post,
            effs,
            session_id,
            current_index,
            now,
        ),
        ApiResponse::VoiceChanged { session_id, voice_id, .. } => voice_changed_post(
            pre,
            post,
            effs,
            session_id,
            voice_id,
            now,
        ),
        ApiResponse::SessionClosed(_) => session_closed_post(pre, post, effs),
        ApiResponse::InferSubmitted { tasks } => infer_submitted_post(pre, post, effs, tasks),
        ApiResponse::TaskStatusQueried { .. } => {
            &&& only_error_changed(pre, post)
            &&& post.error is None
            &&& effs.len() == 0
        },
        ApiResponse::AudioLoaded { segment_index, data, .. } => audio_loaded_post(pre, post, effs, segment_index, data),
        ApiResponse::AudioNotReady { segment_index, .. } => {
            &&& audio_not_ready_post(pre, post, segment_index)
            &&& effs.len() == 0
        },
        ApiResponse::Error(msg) => {
            &&& only_error_changed(pre, post)
            &&& post.error == Some(msg)
            &&& post.error_since == now
            &&& effs.len() == 0
        },
    }
}

/// What each report of the push channel does, as its handler states it.
pub open spec fn ws_response_post(
    pre: Engine,
    post: Engine,
    effs: Seq<Effect>,
    event: WsResponse,
    now: u64,
) -> bool {
    match event {
        WsResponse::Connected => {
            &&& post.ws_state == WsConnectionState::Connected
            &&& post.same_but_table(Engine { ws_state: WsConnectionState::Connected, ..pre })
            &&& post.table() == pre.table()
            &&& effs.len() == 0
        },
        WsResponse::Disconnected | WsResponse::Error(_) => {
            &&& post.ws_state == WsConnectionState::Disconnected
            &&& post.same_but_table(Engine { ws_state: WsConnectionState::Disconnected, ..pre })
            &&& post.table() == pre.table()
            &&& effs.len() == 0
        },
        WsResponse::TaskStateChanged(ev) => task_state_changed_post(pre, post, effs, ev, now),
        WsResponse::SessionClosedByServer { session_id, reason } => closed_by_server_post(
            pre,
            post,
            effs,
            session_id,
            reason,
            now,
        ),
    }
}

/// The state that the engine owns.
#[derive(Debug)]
pub struct Engine {
    pub current_session: Option<CurrentSession>,
    pub task_manager: TaskManager,
    /// How many segments the content has.
    pub total_segments: u32,
    /// The playback cursor.
    pub current_segment_index: u32,
    pub playback_state: PlaybackState,
    /// Playback waits for the cursor's audio.
    pub waiting_for_audio: bool,
    pub ws_state: WsConnectionState,
    pub error: Option<String>,
    /// When the error was set, in milliseconds.
    pub error_since: u64,
}

impl Engine {
    /// The table is well formed, and a session's cursor is the engine's.
    pub open spec fn wf(&self) -> bool {
        &&& self.task_manager.wf()
        &&& self.current_session matches Some(s) ==> s.current_index == self.current_segment_index
        &&& forall|k: u32| #[trigger]
            self.table().contains_key(k) ==> session_text(self.current_session) == Some(
                self.table()[k].session_id@,
            )
    }

    pub open spec fn table(&self) -> Map<u32, SegmentTask> {
        self.task_manager@
    }

    pub open spec fn ahead(&self) -> u32 {
        self.task_manager.prefetch_ahead
    }

    /// Nothing but the table may differ.
    pub open spec fn same_but_table(&self, o: Engine) -> bool {
        &&& self.current_session == o.current_session
        &&& self.total_segments == o.total_segments
        &&& self.current_segment_index == o.current_segment_index
        &&& self.playback_state == o.playback_state
        &&& self.waiting_for_audio == o.waiting_for_audio
        &&& self.ws_state == o.ws_state
        &&& self.error == o.error
        &&& self.error_since == o.error_since
        &&& self.task_manager.prefetch_ahead == o.task_manager.prefetch_ahead
    }

    /// No session, Stopped, an empty table.
    pub fn new() -> (r: Engine)
        ensures
            r.wf(),
            r.current_session is None,
            r.table() == Map::<u32, SegmentTask>::empty(),
            r.ahead() == PREFETCH_AHEAD,
            r.total_segments == 0,
            r.current_segment_index == 0,
            r.playback_state == PlaybackState::Stopped,
            !r.waiting_for_audio,
            r.ws_state == WsConnectionState::Disconnected,
            r.error is None,
    {
        Engine {
            current_session: None,
            task_manager: TaskManager::new(PREFETCH_AHEAD),
            total_segments: 0,
            current_segment_index: 0,
            playback_state: PlaybackState::Stopped,
            waiting_for_audio: false,
            ws_state: WsConnectionState::Disconnected,
            error: None,
            error_since: 0,
        }
    }

    pub fn clear_error(&mut self)
        ensures
            final(self).error is None,
            final(self).error_since == old(self).error_since,
            final(self).current_session == old(self).current_session,
            final(self).task_manager == old(self).task_manager,
            final(self).total_segments == old(self).total_segments,
            final(self).current_segment_index == old(self).current_segment_index,
            final(self).playback_state == old(self).playback_state,
            final(self).waiting_for_audio == old(self).waiting_for_audio,
            final(self).ws_state == old(self).ws_state,
    {
        self.error = None;
    }

    /// Shows `msg` from time `now` on.
    pub fn set_error(&mut self, msg: String, now: u64)
        ensures
            final(self).error == Some(msg),
            final(self).error_since == now,
            final(self).current_session == old(self).current_session,
            final(self).task_manager == old(self).task_manager,
            final(self).total_segments == old(self).total_segments,
            final(self).current_segment_index == old(self).current_segment_index,
            final(self).playback_state == old(self).playback_state,
            final(self).waiting_for_audio == old(self).waiting_for_audio,
            final(self).ws_state == old(self).ws_state,
    {
        self.error = Some(msg);
        self.error_since = now;
    }

    /// Takes the error down once it has been up for `ERROR_DISPLAY_MS`.
    pub fn expire_error(&mut self, now: u64)
        ensures
            (old(self).error is Some && now >= old(self).error_since && now - old(self).error_since
                >= ERROR_DISPLAY_MS) ==> final(self).error is None,
            !(old(self).error is Some && now >= old(self).error_since && now - old(self).error_since
                >= ERROR_DISPLAY_MS) ==> final(self).error == old(self).error,
            final(self).current_session == old(self).current_session,
            final(self).task_manager == old(self).task_manager,
            final(self).playback_state == old(self).playback_state,
            final(self).current_segment_index == old(self).current_segment_index,
    {
        if self.error.is_some() && now >= self.error_since && now - self.error_since >= ERROR_DISPLAY_MS {
            self.error = None;
        }
    }

    /// Sets how many segments the content has.
    pub fn set_total_segments(&mut self, total: u32)
        requires
            old(self).wf(),
        ensures
            final(self).wf(),
            final(self).total_segments == total,
            final(self).current_session == old(self).current_session,
            final(self).task_manager == old(self).task_manager,
            final(self).current_segment_index == old(self).current_segment_index,
            final(self).playback_state == old(self).playback_state,
            final(self).waiting_for_audio == old(self).waiting_for_audio,
            final(self).error == old(self).error,
    {
        self.total_segments = total;
    }

    /// A play call succeeded: `session_id` becomes the active session at
    /// `current_index`, the table starts empty, the push channel is opened and
    /// the window submitted; playback waits for the cursor's audio.
    pub fn on_play_started(
        &mut self,
        session_id: String,
        novel_id: uuid::Uuid,
        voice_id: uuid::Uuid,
        current_index: u32,
        now: u64,
    ) -> (effs: Vec<Effect>)
        requires
            old(self).wf(),
        ensures
            final(self).wf(),
            play_started_post(*old(self), *final(self), effs@, session_id, novel_id, voice_id, current_index, now),
    {
        self.task_manager = TaskManager::new(PREFETCH_AHEAD);
        self.current_segment_index = current_index;
        self.playback_state = PlaybackState::Loading;
        self.waiting_for_audio = true;
        let mut effs: Vec<Effect> = Vec::new();
        effs.push(Effect::Ws(WsRequest::Connect(session_id.clone())));
        let mut more = refill_window(
            &mut self.task_manager,
            session_id.as_str(),
            current_index,
            self.total_segments,
            now,
        );
        let ghost added = more@;
        effs.append(&mut more);
        self.current_session = Some(CurrentSession { session_id, novel_id, voice_id, current_index });
        self.error = None;
        assert(effs@.drop_first() =~= added);
        effs
    }

    /// A seek was acknowledged. For the active session the cursor moves to
    /// `current_index`, the table is cleared, and a fresh window is submitted
    /// there; playback waits for the new cursor's audio. An acknowledgement of
    /// another session changes nothing but the error.
    pub fn on_seek_completed(&mut self, session_id: String, current_index: u32, now: u64) -> (effs: Vec<
        Effect,
    >)
        requires
            old(self).wf(),
        ensures
            final(self).wf(),
            seek_completed_post(*old(self), *final(self), effs@, session_id, current_index, now),
    {
        let mut effs: Vec<Effect> = Vec::new();
        let matches: bool = match &self.current_session {
            Some(s) => s.session_id.eq(&session_id),
            None => false,
        };
        if matches {
            match &mut self.current_session {
                Some(s) => {
                    s.current_index = current_index;
                },
                None => {},
            }
            self.current_segment_index = current_index;
            self.task_manager.clear();
            self.playback_state = PlaybackState::Loading;
            self.waiting_for_audio = true;
            effs = refill_window(
                &mut self.task_manager,
                session_id.as_str(),
                current_index,
                self.total_segments,
                now,
            );
        }
        self.error = None;
        effs
    }

    /// A voice change was acknowledged. For the active session the voice
    /// becomes `voice_id`, the table is cleared, and the window is submitted
    /// again at the unchanged cursor; playback waits for the cursor's audio.
    pub fn on_voice_changed(&mut self, session_id: String, voice_id: uuid::Uuid, now: u64) -> (effs: Vec<
        Effect,
    >)
        requires
            old(self).wf(),
        ensures
            final(self).wf(),
            voice_changed_post(*old(self), *final(self), effs@, session_id, voice_id, now),
    {
        let mut effs: Vec<Effect> = Vec::new();
        let matches: bool = match &self.current_session {
            Some(s) => s.session_id.eq(&session_id),
            None => false,
        };
        if matches {
            match &mut self.current_session {
                Some(s) => {
                    s.voice_id = voice_id;
                },
                None => {},
            }
            self.task_manager.clear();
            self.playback_state = PlaybackState::Loading;
            self.waiting_for_audio = true;
            effs = refill_window(
                &mut self.task_manager,
                session_id.as_str(),
                self.current_segment_index,
                self.total_segments,
                now,
            );
        }
        self.error = None;
        effs
    }

    /// A close was acknowledged: no session, Stopped, an empty table, and
    /// the push channel is closed.
    pub fn on_session_closed(&mut self) -> (effs: Vec<Effect>)
        requires
            old(self).wf(),
        ensures
            final(self).wf(),
            session_closed_post(*old(self), *final(self), effs@),
    {
        self.current_session = None;
        self.playback_state = PlaybackState::Stopped;
        self.task_manager.clear();
        self.error = None;
        let mut effs: Vec<Effect> = Vec::new();
        effs.push(Effect::Ws(WsRequest::Disconnect));
        effs
    }

    /// A submission was acknowledged: each task is applied to the table in
    /// order. When one of them reports the cursor's segment ready while
    /// playback waits for it, the cursor's audio is requested.
    pub fn on_infer_submitted(&mut self, tasks: Vec<TaskInfo>) -> (effs: Vec<Effect>)
        requires
            old(self).wf(),
        ensures
            final(self).wf(),
            infer_submitted_post(*old(self), *final(self), effs@, tasks),
    {
        let current: u32 = self.current_segment_index;
        let mut current_ready: bool = false;
        let mut i: usize = 0;
        while i < tasks.len()
            invariant
                self.wf(),
                i <= tasks@.len(),
                self.table() == acked_all(old(self).table(), tasks@.take(i as int)),
                self.current_session == old(self).current_session,
                self.current_segment_index == current,
                current == old(self).current_segment_index,
                self.playback_state == old(self).playback_state,
                self.waiting_for_audio == old(self).waiting_for_audio,
                self.total_segments == old(self).total_segments,
                self.ahead() == old(self).ahead(),
                self.error == old(self).error,
                current_ready == exists|j: int|
                    0 <= j < i && (#[trigger] tasks@[j]).segment_index == current && tasks@[j].state@
                        == "ready"@,
            decreases tasks@.len() - i,
        {
            let task = &tasks[i];
            self.task_manager.apply_ack(task);
            assert(tasks@.take(i + 1).drop_last() == tasks@.take(i as int));
            if task.segment_index == current && same_text(task.state.as_str(), "ready") {
                current_ready = true;
            }
            i = i + 1;
        }
        assert(tasks@.take(tasks@.len() as int) == tasks@);
        let mut effs: Vec<Effect> = Vec::new();
        if current_ready && (self.waiting_for_audio || self.playback_state == PlaybackState::Loading) {
            match &self.current_session {
                Some(s) => {
                    effs.push(
                        Effect::Api(
                            ApiRequest::LoadAudio {
                                novel_id: s.novel_id,
                                segment_index: current,
                                voice_id: s.voice_id,
                            },
                        ),
                    );
                },
                None => {},
            }
        }
        self.error = None;
        effs
    }

    /// A push notification of a task. With a session, it is applied to the
    /// table on the session's behalf (a notification of another session
    /// changes nothing). When it reports the cursor's segment ready for the
    /// active session while playback waits for it, the cursor's audio is
    /// requested.
    pub fn on_task_state_changed(&mut self, event: WsEvent, now: u64) -> (effs: Vec<Effect>)
        requires
            old(self).wf(),
        ensures
            final(self).wf(),
            task_state_changed_post(*old(self), *final(self), effs@, event, now),
    {
        let mut effs: Vec<Effect> = Vec::new();
        match &self.current_session {
            Some(s) => {
                self.task_manager.update_task_state(s.session_id.as_str(), &event, now);
            },
            None => {},
        }
        match &event {
            WsEvent::TaskStateChanged { session_id, segment_index, state, .. } => {
                match &self.current_session {
                    Some(s) => {
                        if s.session_id.eq(session_id) && *segment_index == self.current_segment_index
                            && same_text(state.as_str(), "ready") && (self.waiting_for_audio
                            || self.playback_state == PlaybackState::Loading) {
                            effs.push(
                                Effect::Api(
                                    ApiRequest::LoadAudio {
                                        novel_id: s.novel_id,
                                        segment_index: self.current_segment_index,
                                        voice_id: s.voice_id,
                                    },
                                ),
                            );
                        }
                    },
                    None => {},
                }
            },
            WsEvent::SessionClosed { .. } => {},
        }
        effs
    }

    /// The service closed a session. When it is the active one: no session,
    /// Stopped, an empty table, audio stopped, and the reason shown from `now`.
    /// Another session's closure changes nothing.
    pub fn on_session_closed_by_server(&mut self, session_id: String, reason: String, now: u64) -> (effs: Vec<
        Effect,
    >)
        requires
            old(self).wf(),
        ensures
            final(self).wf(),
            closed_by_server_post(*old(self), *final(self), effs@, session_id, reason, now),
    {
        let mut effs: Vec<Effect> = Vec::new();
        let matches: bool = match &self.current_session {
            Some(s) => s.session_id.eq(&session_id),
            None => false,
        };
        if matches {
            self.current_session = None;
            self.playback_state = PlaybackState::Stopped;
            self.task_manager.clear();
            let mut msg: String = "Session closed by server: ".to_owned();
            msg.append(reason.as_str());
            self.error = Some(msg);
            self.error_since = now;
            effs.push(Effect::Audio(AudioCommand::Stop));
        }
        effs
    }

    /// Audio arrived: it is handed to the audio worker, and when it is the
    /// cursor's, playback is Playing and waits no more.
    pub fn on_audio_loaded(&mut self, segment_index: u32, data: Vec<u8>) -> (effs: Vec<Effect>)
        requires
            old(self).wf(),
        ensures
            final(self).wf(),
            audio_loaded_post(*old(self), *final(self), effs@, segment_index, data),
    {
        let mut effs: Vec<Effect> = Vec::new();
        if segment_index == self.current_segment_index {
            self.playback_state = PlaybackState::Playing;
            self.waiting_for_audio = false;
        }
        effs.push(Effect::Audio(AudioCommand::Play(data)));
        self.error = None;
        effs
    }

    /// The service had no audio yet: when it is the cursor's, playback waits
    /// for the cursor's segment to become ready.
    pub fn on_audio_not_ready(&mut self, segment_index: u32)
        requires
            old(self).wf(),
        ensures
            final(self).wf(),
            audio_not_ready_post(*old(self), *final(self), segment_index),
    {
        if segment_index == self.current_segment_index {
            self.waiting_for_audio = true;
        }
    }

    /// The audio worker finished the cursor's segment. Outside Playing, or
    /// without a session, nothing happens. At the last segment playback
    /// stops. Otherwise the cursor moves on by one: its audio is requested at
    /// once when its segment is Ready, else playback waits for it; then the
    /// window at the new cursor is refilled.
    pub fn handle_audio_finished(&mut self, now: u64) -> (effs: Vec<Effect>)
        requires
            old(self).wf(),
        ensures
            final(self).wf(),
            final(self).total_segments == old(self).total_segments,
            final(self).ahead() == old(self).ahead(),
            final(self).error == old(self).error,
            old(self).playback_state != PlaybackState::Playing || old(self).current_session is None
                ==> {
                &&& final(self).same_but_table(*old(self))
                &&& final(self).table() == old(self).table()
                &&& effs@.len() == 0
            },
            old(self).playback_state == PlaybackState::Playing && old(self).current_session is Some
                && old(self).current_segment_index + 1 >= old(self).total_segments ==> {
                &&& final(self).playback_state == PlaybackState::Stopped
                &&& final(self).current_session == old(self).current_session
                &&& final(self).current_segment_index == old(self).current_segment_index
                &&& final(self).table() == old(self).table()
                &&& final(self).waiting_for_audio == old(self).waiting_for_audio
                &&& effs@.len() == 0
            },
            old(self).playback_state == PlaybackState::Playing && old(self).current_session is Some
                && old(self).current_segment_index + 1 < old(self).total_segments ==> {
                let s = old(self).current_session->Some_0;
                let next = (old(self).current_segment_index + 1) as u32;
                let ready = ready_at(old(self).table(), next);
                let k: int = if ready { 1 } else { 0 };
                &&& final(self).current_segment_index == next
                &&& final(self).current_session matches Some(t) && same_session(t, s)
                &&& ready ==> final(self).playback_state == PlaybackState::Playing
                    && final(self).waiting_for_audio == old(self).waiting_for_audio
                    && effs@.len() >= 1 && effs@[0] == load_audio(s, next)
                &&& !ready ==> final(self).playback_state == PlaybackState::Loading
                    && final(self).waiting_for_audio
                &&& refilled(
                    old(self).table(),
                    final(self).table(),
                    effs@.subrange(k, effs@.len() as int),
                    s.session_id@,
                    next,
                    old(self).ahead(),
                    old(self).total_segments,
                    now,
                )
            },
    {
        let mut effs: Vec<Effect> = Vec::new();
        if self.playback_state != PlaybackState::Playing {
            return effs;
        }
        let (session_id, novel_id, voice_id) = match &self.current_session {
            Some(s) => (s.session_id.clone(), s.novel_id, s.voice_id),
            None => {
                return effs;
            },
        };
        let total: u32 = self.total_segments;
        let current: u32 = self.current_segment_index;
        if current as u64 + 1 >= total as u64 {
            self.playback_state = PlaybackState::Stopped;
            return effs;
        }
        let next: u32 = current + 1;
        self.current_segment_index = next;
        match &mut self.current_session {
            Some(s) => {
                s.current_index = next;
            },
            None => {},
        }
        let ready: bool = self.task_manager.is_segment_ready(next);
        if ready {
            effs.push(
                Effect::Api(ApiRequest::LoadAudio { novel_id, segment_index: next, voice_id }),
            );
        } else {
            self.playback_state = PlaybackState::Loading;
            self.waiting_for_audio = true;
        }
        let ghost k: int = if ready { 1 } else { 0 };
        let ghost head = effs@;
        let mut more = refill_window(&mut self.task_manager, session_id.as_str(), next, total, now);
        let ghost added = more@;
        effs.append(&mut more);
        assert(effs@.subrange(k, effs@.len() as int) =~= added);
        assert(effs@.len() >= k ==> effs@.subrange(0, k) =~= head);
        effs
    }

    /// The user pressed play while stopped with a session: the window at the
    /// cursor is refilled, the cursor's audio is requested when its segment is
    /// Ready, and playback moves to Loading. In any other case nothing happens.
    pub fn play_pressed(&mut self, now: u64) -> (effs: Vec<Effect>)
        requires
            old(self).wf(),
        ensures
            final(self).wf(),
            final(self).current_session == old(self).current_session,
            final(self).current_segment_index == old(self).current_segment_index,
            final(self).total_segments == old(self).total_segments,
            final(self).ahead() == old(self).ahead(),
            final(self).error == old(self).error,
            old(self).playback_state != PlaybackState::Stopped || old(self).current_session is None ==> {
                &&& final(self).same_but_table(*old(self))
                &&& final(self).table() == old(self).table()
                &&& effs@.len() == 0
            },
            old(self).playback_state == PlaybackState::Stopped && old(self).current_session is Some ==> {
                let s = old(self).current_session->Some_0;
                let c = old(self).current_segment_index;
                let k = refill_len(c, old(self).ahead(), old(self).total_segments, old(self).table().dom());
                &&& final(self).playback_state == PlaybackState::Loading
                &&& final(self).waiting_for_audio
                &&& refilled(
                    old(self).table(),
                    final(self).table(),
                    effs@.subrange(0, k),
                    s.session_id@,
                    c,
                    old(self).ahead(),
                    old(self).total_segments,
                    now,
                )
                &&& ready_at(old(self).table(), c) ==> effs@.len() == k + 1 && effs@[k] == load_audio(s, c)
                &&& !ready_at(old(self).table(), c) ==> effs@.len() == k
            },
    {
        let mut effs: Vec<Effect> = Vec::new();
        if self.playback_state != PlaybackState::Stopped {
            return effs;
        }
        let (session_id, novel_id, voice_id) = match &self.current_session {
            Some(s) => (s.session_id.clone(), s.novel_id, s.voice_id),
            None => {
                return effs;
            },
        };
        let current: u32 = self.current_segment_index;
        let ready: bool = self.task_manager.is_segment_ready(current);
        effs = refill_window(&mut self.task_manager, session_id.as_str(), current, self.total_segments, now);
        let ghost head = effs@;
        if ready {
            effs.push(
                Effect::Api(ApiRequest::LoadAudio { novel_id, segment_index: current, voice_id }),
            );
        }
        assert(effs@.subrange(0, head.len() as int) =~= head);
        self.playback_state = PlaybackState::Loading;
        self.waiting_for_audio = true;
        effs
    }

    /// The user paused: from Playing, playback is Paused and the audio worker
    /// pauses. In any other state nothing happens.
    pub fn pause_pressed(&mut self) -> (effs: Vec<Effect>)
        requires
            old(self).wf(),
        ensures
            final(self).wf(),
            final(self).current_session == old(self).current_session,
            final(self).task_manager == old(self).task_manager,
            final(self).current_segment_index == old(self).current_segment_index,
            final(self).waiting_for_audio == old(self).waiting_for_audio,
            old(self).playback_state == PlaybackState::Playing ==> final(self).playback_state
                == PlaybackState::Paused && effs@.len() == 1 && effs@[0] matches Effect::Audio(
                AudioCommand::Pause,
            ),
            old(self).playback_state != PlaybackState::Playing ==> final(self).playback_state
                == old(self).playback_state && effs@.len() == 0,
    {
        let mut effs: Vec<Effect> = Vec::new();
        if self.playback_state == PlaybackState::Playing {
            self.playback_state = PlaybackState::Paused;
            effs.push(Effect::Audio(AudioCommand::Pause));
        }
        effs
    }

    /// The user resumed: from Paused, playback is Playing and the audio
    /// worker resumes. In any other state nothing happens.
    pub fn resume_pressed(&mut self) -> (effs: Vec<Effect>)
        requires
            old(self).wf(),
        ensures
            final(self).wf(),
            final(self).current_session == old(self).current_session,
            final(self).task_manager == old(self).task_manager,
            final(self).current_segment_index == old(self).current_segment_index,
            final(self).waiting_for_audio == old(self).waiting_for_audio,
            old(self).playback_state == PlaybackState::Paused ==> final(self).playback_state
                == PlaybackState::Playing && effs@.len() == 1 && effs@[0] matches Effect::Audio(
                AudioCommand::Resume,
            ),
            old(self).playback_state != PlaybackState::Paused ==> final(self).playback_state
                == old(self).playback_state && effs@.len() == 0,
    {
        let mut effs: Vec<Effect> = Vec::new();
        if self.playback_state == PlaybackState::Paused {
            self.playback_state = PlaybackState::Playing;
            effs.push(Effect::Audio(AudioCommand::Resume));
        }
        effs
    }

    /// The user stopped: playback is Stopped and the audio worker stops. The
    /// table is left to the lifecycle. When already stopped nothing happens.
    pub fn stop_pressed(&mut self) -> (effs: Vec<Effect>)
        requires
            old(self).wf(),
        ensures
            final(self).wf(),
            final(self).playback_state == PlaybackState::Stopped,
            final(self).current_session == old(self).current_session,
            final(self).task_manager == old(self).task_manager,
            final(self).current_segment_index == old(self).current_segment_index,
            final(self).waiting_for_audio == old(self).waiting_for_audio,
            old(self).playback_state != PlaybackState::Stopped ==> effs@.len() == 1 && effs@[0] matches Effect::Audio(
                AudioCommand::Stop,
            ),
            old(self).playback_state == PlaybackState::Stopped ==> effs@.len() == 0,
    {
        let mut effs: Vec<Effect> = Vec::new();
        if self.playback_state != PlaybackState::Stopped {
            self.playback_state = PlaybackState::Stopped;
            effs.push(Effect::Audio(AudioCommand::Stop));
        }
        effs
    }

    /// The user asked to seek to `target`: with a session, the audio worker
    /// stops and the seek goes to the service; its acknowledgement moves the
    /// cursor (`on_seek_completed`). Without a session nothing happens.
    pub fn seek_pressed(&self, target: u32) -> (effs: Vec<Effect>)
        ensures
            match self.current_session {
                Some(s) => {
                    &&& effs@.len() == 2
                    &&& effs@[0] matches Effect::Audio(AudioCommand::Stop)
                    &&& effs@[1] matches Effect::Api(ApiRequest::Seek { session_id, segment_index })
                        && session_id@ == s.session_id@ && segment_index == target
                },
                None => effs@.len() == 0,
            },
    {
        let mut effs: Vec<Effect> = Vec::new();
        match &self.current_session {
            Some(s) => {
                effs.push(Effect::Audio(AudioCommand::Stop));
                effs.push(
                    Effect::Api(ApiRequest::Seek { session_id: s.session_id.clone(), segment_index: target }),
                );
            },
            None => {},
        }
        effs
    }

    /// The user picked another voice: with a session, the change goes to the
    /// service; its acknowledgement resets the window (`on_voice_changed`).
    pub fn change_voice_pressed(&self, voice_id: uuid::Uuid) -> (effs: Vec<Effect>)
        ensures
            match self.current_session {
                Some(s) => {
                    &&& effs@.len() == 1
                    &&& effs@[0] matches Effect::Api(ApiRequest::ChangeVoice { session_id, voice_id: v })
                        && session_id@ == s.session_id@ && v == voice_id
                },
                None => effs@.len() == 0,
            },
    {
        let mut effs: Vec<Effect> = Vec::new();
        match &self.current_session {
            Some(s) => {
                effs.push(
                    Effect::Api(ApiRequest::ChangeVoice { session_id: s.session_id.clone(), voice_id }),
                );
            },
            None => {},
        }
        effs
    }

    /// The user closed the player: with a session, the audio worker stops and
    /// the close goes to the service; its acknowledgement clears the state
    /// (`on_session_closed`).
    pub fn close_pressed(&self) -> (effs: Vec<Effect>)
        ensures
            match self.current_session {
                Some(s) => {
                    &&& effs@.len() == 2
                    &&& effs@[0] matches Effect::Audio(AudioCommand::Stop)
                    &&& effs@[1] matches Effect::Api(ApiRequest::CloseSession(id)) && id@ == s.session_id@
                },
                None => effs@.len() == 0,
            },
    {
        let mut effs: Vec<Effect> = Vec::new();
        match &self.current_session {
            Some(s) => {
                effs.push(Effect::Audio(AudioCommand::Stop));
                effs.push(Effect::Api(ApiRequest::CloseSession(s.session_id.clone())));
            },
            None => {},
        }
        effs
    }

    /// The periodic resubmission: while Playing or Loading with a session,
    /// the window at the cursor is refilled; otherwise nothing happens.
    pub fn prefetch_tick(&mut self, now: u64) -> (effs: Vec<Effect>)
        requires
            old(self).wf(),
        ensures
            final(self).wf(),
            final(self).same_but_table(*old(self)),
            (old(self).playback_state == PlaybackState::Playing || old(self).playback_state
                == PlaybackState::Loading) && old(self).current_session is Some ==> refilled(
                old(self).table(),
                final(self).table(),
                effs@,
                old(self).current_session->Some_0.session_id@,
                old(self).current_segment_index,
                old(self).ahead(),
                old(self).total_segments,
                now,
            ),
            !((old(self).playback_state == PlaybackState::Playing || old(self).playback_state
                == PlaybackState::Loading) && old(self).current_session is Some) ==> final(self).table()
                == old(self).table() && effs@.len() == 0,
    {
        if self.playback_state != PlaybackState::Playing && self.playback_state != PlaybackState::Loading {
            return Vec::new();
        }
        match &self.current_session {
            Some(s) => refill_window(
                &mut self.task_manager,
                s.session_id.as_str(),
                self.current_segment_index,
                self.total_segments,
                now,
            ),
            None => Vec::new(),
        }
    }

    /// The periodic cleanup: Pending entries older than `PENDING_TIMEOUT_MS`
    /// are dropped, so that the next resubmission asks for them again.
    pub fn cleanup_tick(&mut self, now: u64)
        requires
            old(self).wf(),
        ensures
            final(self).wf(),
            final(self).same_but_table(*old(self)),
            stale_purged(old(self).table(), final(self).table(), PENDING_TIMEOUT_MS, now),
    {
        self.task_manager.cleanup_stale_pending(PENDING_TIMEOUT_MS, now);
    }

    /// Applies an answer of the service.
    pub fn handle_api_response(&mut self, event: ApiResponse, now: u64) -> (effs: Vec<Effect>)
        requires
            old(self).wf(),
        ensures
            final(self).wf(),
            api_response_post(*old(self), *final(self), effs@, event, now),
    {
        match event {
            ApiResponse::PlayStarted { session_id, novel_id, voice_id, current_index } => {
                self.on_play_started(session_id, novel_id, voice_id, current_index, now)
            },
            ApiResponse::SeekCompleted { session_id, current_index, .. } => {
                self.on_seek_completed(session_id, current_index, now)
            },
            ApiResponse::VoiceChanged { session_id, voice_id, .. } => {
                self.on_voice_changed(session_id, voice_id, now)
            },
            ApiResponse::SessionClosed(_) => self.on_session_closed(),
            ApiResponse::InferSubmitted { tasks } => self.on_infer_submitted(tasks),
            ApiResponse::TaskStatusQueried { .. } => {
                self.error = None;
                Vec::new()
            },
            ApiResponse::AudioLoaded { segment_index, data, .. } => self.on_audio_loaded(segment_index, data),
            ApiResponse::AudioNotReady { segment_index, .. } => {
                self.on_audio_not_ready(segment_index);
                Vec::new()
            },
            ApiResponse::Error(msg) => {
                self.set_error(msg, now);
                Vec::new()
            },
        }
    }

    /// Applies a report of the push channel.
    pub fn handle_ws_response(&mut self, event: WsResponse, now: u64) -> (effs: Vec<Effect>)
        requires
            old(self).wf(),
        ensures
            final(self).wf(),
            ws_response_post(*old(self), *final(self), effs@, event, now),
    {
        match event {
            WsResponse::Connected => {
                self.ws_state = WsConnectionState::Connected;
                Vec::new()
            },
            WsResponse::Disconnected => {
                self.ws_state = WsConnectionState::Disconnected;
                Vec::new()
            },
            WsResponse::Error(_) => {
                self.ws_state = WsConnectionState::Disconnected;
                Vec::new()
            },
            WsResponse::TaskStateChanged(ev) => self.on_task_state_changed(ev, now),
            WsResponse::SessionClosedByServer { session_id, reason } => {
                self.on_session_closed_by_server(session_id, reason, now)
            },
        }
    }

    /// The state of the entry at `segment_index`, if any.
    pub fn task_state_of(&self, segment_index: u32) -> (r: Option<TaskState>)
        ensures
            r == (if self.table().contains_key(segment_index) {
                Some(self.table()[segment_index].state)
            } else {
                None
            }),
    {
        match self.task_manager.tasks.get(&segment_index) {
            Some(t) => Some(t.state),
            None => None,
        }
    }

    /// The number of entries in the table.
    pub fn task_count(&self) -> (r: usize)
        ensures
            r == self.table().dom().len(),
    {
        self.task_manager.tasks.len()
    }
}

} // verus!
