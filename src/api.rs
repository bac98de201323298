//! The messages exchanged with the synthesis service, and the client that
//! says which endpoint each call goes to and what it carries.

use vstd::prelude::*;

verus! {

#[verifier::external_type_specification]
#[verifier::external_body]
pub struct ExUuid(uuid::Uuid);

#[verifier::external_type_specification]
#[verifier::external_body]
pub struct ExUrl(url::Url);

#[verifier::external_type_specification]
#[verifier::external_body]
pub struct ExParseError(url::ParseError);

/// Whether `url::Url::parse` accepts the text as an absolute URL.
pub uninterp spec fn url_parses(s: Seq<char>) -> bool;

/// Relies on `url::Url::parse`: it succeeds exactly on the texts that it
/// accepts as absolute URLs, the same way for the same text.
#[verifier::external_body]
fn parse_url(s: &str) -> (r: Result<url::Url, url::ParseError>)
    ensures
        r is Ok <==> url_parses(s@),
{
    url::Url::parse(s)
}

/// Why a call to the service did not give its data.
#[derive(Debug, Clone, PartialEq, Eq)]
pub enum ApiError {
    /// The service answered with a nonzero error number.
    Api { errno: i32, message: String },
    /// The service reported success without data.
    NoData,
    /// The endpoint address is not a valid absolute URL.
    InvalidUrl,
}

/// The envelope around every answer of the service.
#[derive(Debug, Clone)]
pub struct ApiResponse<T> {
    pub errno: i32,
    pub error: String,
    pub data: Option<T>,
}

impl<T> ApiResponse<T> {
    /// The data on success; the service's error number and message otherwise.
    pub fn into_result(self) -> (r: Result<T, ApiError>)
        ensures
            self.errno == 0 && self.data is Some ==> r == Ok::<T, ApiError>(self.data->Some_0),
            self.errno == 0 && self.data is None ==> r == Err::<T, ApiError>(ApiError::NoData),
            self.errno != 0 ==> (r matches Err(ApiError::Api { errno, message }) && errno == self.errno
                && message@ == self.error@),
    {
        if self.errno == 0 {
            match self.data {
                Some(d) => Ok(d),
                None => Err(ApiError::NoData),
            }
        } else {
            Err(ApiError::Api { errno: self.errno, message: self.error })
        }
    }
}

/// The data of an answer that carries none.
#[derive(Debug, Clone)]
pub struct EmptyData {}

/// The status that a novel has when the service leaves it out.
pub fn default_status() -> (r: String)
    ensures
        r@ == "ready"@,
{
    "ready".to_owned()
}

/// One text segment of a novel.
#[derive(Debug, Clone)]
pub struct SegmentResponse {
    pub index: usize,
    pub content: String,
    pub char_count: usize,
}

/// The answer to a play call: the session that the service opened.
#[derive(Debug)]
pub struct PlayResponse {
    pub session_id: String,
    pub novel_id: uuid::Uuid,
    pub voice_id: uuid::Uuid,
    pub current_index: u32,
}

/// The answer to a seek call.
#[derive(Debug, Clone)]
pub struct SeekResponse {
    pub session_id: String,
    pub current_index: u32,
    pub cancelled_tasks: usize,
}

/// The answer to a voice change.
#[derive(Debug)]
pub struct ChangeVoiceResponse {
    pub session_id: String,
    pub voice_id: uuid::Uuid,
    pub cancelled_tasks: usize,
}

/// The answer to a close call.
#[derive(Debug, Clone)]
pub struct CloseSessionResponse {
    pub session_id: String,
}

/// One task of a submission acknowledgement.
#[derive(Debug, Clone)]
pub struct TaskInfo {
    pub task_id: String,
    pub segment_index: u32,
    /// "pending" | "inferring" | "ready" | "failed" | "cancelled"
    pub state: String,
}

/// The answer to a submission.
#[derive(Debug, Clone)]
pub struct SubmitInferResponse {
    pub tasks: Vec<TaskInfo>,
}

/// One task of a status query.
#[derive(Debug, Clone)]
pub struct TaskStatusInfo {
    pub task_id: String,
    pub segment_index: u32,
    pub state: String,
    pub error: Option<String>,
}

/// The answer to a status query.
#[derive(Debug, Clone)]
pub struct QueryTaskStatusResponse {
    pub tasks: Vec<TaskStatusInfo>,
}

/// A notification of the push channel.
#[derive(Debug, Clone)]
pub enum WsEvent {
    TaskStateChanged {
        session_id: String,
        task_id: String,
        segment_index: u32,
        state: String,
        duration_ms: Option<u32>,
        error: Option<String>,
    },
    SessionClosed { session_id: String, reason: String },
}

/// What a call sends to its endpoint.
#[derive(Debug)]
pub enum RequestBody {
    Play { novel_id: uuid::Uuid, voice_id: uuid::Uuid, start_index: u32 },
    Seek { session_id: String, segment_index: u32 },
    ChangeVoice { session_id: String, voice_id: uuid::Uuid },
    CloseSession { session_id: String },
    SubmitInfer { session_id: String, segment_indices: Vec<u32> },
    QueryTaskStatus { task_ids: Vec<String> },
    GetAudio { novel_id: uuid::Uuid, segment_index: u32, voice_id: uuid::Uuid },
}

/// One call to the service: the address it is posted to and its body.
#[derive(Debug)]
pub struct ApiCall {
    pub url: String,
    pub body: RequestBody,
}

/// The service's address; each call goes to an endpoint below it.
#[derive(Debug, Clone)]
pub struct ApiClient {
    pub base_url: String,
}

impl ApiClient {
    pub fn new(base_url: String) -> (r: ApiClient)
        ensures
            r.base_url@ == base_url@,
    {
        ApiClient { base_url }
    }

    /// The address of `endpoint`: the base address followed by it.
    pub fn endpoint_url(&self, endpoint: &str) -> (r: String)
        ensures
            r@ == self.base_url@ + endpoint@,
    {
        let mut u: String = self.base_url.clone();
        u.append(endpoint);
        u
    }

    /// Opens a session on a novel with a voice, starting at `start_index`.
    pub fn play(&self, novel_id: uuid::Uuid, voice_id: uuid::Uuid, start_index: u32) -> (r: ApiCall)
        ensures
            r.url@ == self.base_url@ + "/session/play"@,
            r.body == (RequestBody::Play { novel_id, voice_id, start_index }),
    {
        ApiCall {
            url: self.endpoint_url("/session/play"),
            body: RequestBody::Play { novel_id, voice_id, start_index },
        }
    }

    /// Moves the session's cursor to `segment_index`.
    pub fn seek(&self, session_id: &str, segment_index: u32) -> (r: ApiCall)
        ensures
            r.url@ == self.base_url@ + "/session/seek"@,
            r.body matches RequestBody::Seek { session_id: s, segment_index: i } && s@ == session_id@
                && i == segment_index,
    {
        ApiCall {
            url: self.endpoint_url("/session/seek"),
            body: RequestBody::Seek { session_id: session_id.to_owned(), segment_index },
        }
    }

    /// Switches the session to another voice.
    pub fn change_voice(&self, session_id: &str, voice_id: uuid::Uuid) -> (r: ApiCall)
        ensures
            r.url@ == self.base_url@ + "/session/change_voice"@,
            r.body matches RequestBody::ChangeVoice { session_id: s, voice_id: v } && s@ == session_id@
                && v == voice_id,
    {
        ApiCall {
            url: self.endpoint_url("/session/change_voice"),
            body: RequestBody::ChangeVoice { session_id: session_id.to_owned(), voice_id },
        }
    }

    /// Closes the session.
    pub fn close_session(&self, session_id: &str) -> (r: ApiCall)
        ensures
            r.url@ == self.base_url@ + "/session/close"@,
            r.body matches RequestBody::CloseSession { session_id: s } && s@ == session_id@,
    {
        ApiCall {
            url: self.endpoint_url("/session/close"),
            body: RequestBody::CloseSession { session_id: session_id.to_owned() },
        }
    }

    /// Submits the segments for synthesis, all in one call.
    pub fn submit_infer(&self, session_id: &str, segment_indices: Vec<u32>) -> (r: ApiCall)
        ensures
            r.url@ == self.base_url@ + "/infer/submit"@,
            r.body matches RequestBody::SubmitInfer { session_id: s, segment_indices: v } && s@ == session_id@
                && v@ == segment_indices@,
    {
        ApiCall {
            url: self.endpoint_url("/infer/submit"),
            body: RequestBody::SubmitInfer { session_id: session_id.to_owned(), segment_indices },
        }
    }

    /// Asks for the state of the tasks.
    pub fn query_task_status(&self, task_ids: Vec<String>) -> (r: ApiCall)
        ensures
            r.url@ == self.base_url@ + "/infer/status"@,
            r.body matches RequestBody::QueryTaskStatus { task_ids: v } && v@ == task_ids@,
    {
        ApiCall { url: self.endpoint_url("/infer/status"), body: RequestBody::QueryTaskStatus { task_ids } }
    }

    /// Fetches the audio of one segment in one voice.
    pub fn get_audio(&self, novel_id: uuid::Uuid, segment_index: u32, voice_id: uuid::Uuid) -> (r: ApiCall)
        ensures
            r.url@ == self.base_url@ + "/audio"@,
            r.body == (RequestBody::GetAudio { novel_id, segment_index, voice_id }),
    {
        ApiCall {
            url: self.endpoint_url("/audio"),
            body: RequestBody::GetAudio { novel_id, segment_index, voice_id },
        }
    }
}

/// The text of the push channel's address for a session.
pub open spec fn channel_text(ws_base: Seq<char>, session_id: Seq<char>) -> Seq<char> {
    ws_base + "/session/"@ + session_id
}

/// The push channel's address for a session, below `ws_base`.
pub fn session_channel_url(ws_base: &str, session_id: &str) -> (r: Result<url::Url, ApiError>)
    ensures
        r is Ok <==> url_parses(channel_text(ws_base@, session_id@)),
        r is Err ==> r == Err::<url::Url, ApiError>(ApiError::InvalidUrl),
{
    let mut text: String = ws_base.to_owned();
    text.append("/session/");
    text.append(session_id);
    match parse_url(text.as_str()) {
        Ok(u) => Ok(u),
        Err(_) => Err(ApiError::InvalidUrl),
    }
}

} // verus!
