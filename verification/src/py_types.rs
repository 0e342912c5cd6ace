//! Plain-value result types for the one-shot session lifecycle and
//! transcription calls, and the verified mappings into them.
//!
//! The remote API answers with status codes and record fields; the
//! functions here turn those plain values into typed outcomes.  A
//! non-success status becomes an authentication or remote error carrying
//! the remote-provided message verbatim; a close call that outran its
//! wait ceiling becomes a flagged soft-timeout value, not an error.

use vstd::prelude::*;

use crate::types::ApiError;

verus! {

/// Identifiers of a freshly created session, immutable after creation.
#[derive(Debug, Clone)]
pub struct SessionCreateResult {
    pub task_id: String,
    pub session_id: String,
    pub usage_id: String,
    pub max_time: i32,
}

/// Outcome of a one-shot session close, including the flagged
/// soft-timeout case.
#[derive(Debug, Clone)]
pub struct SessionCloseResult {
    pub status: String,
    pub duration: Option<i32>,
    pub error_code: Option<i32>,
    pub message: Option<String>,
}

/// Outcome of a file upload: a long-running task or a one-sentence
/// immediate answer.
#[derive(Debug, Clone)]
pub enum UploadResponse {
    Normal { task_id: String },
    OneSentence { status: String, message: String, data: String },
}

/// Flattened upload outcome handed to the host, tagged by kind.
#[derive(Debug, Clone)]
pub struct UploadResult {
    pub kind: String,
    pub task_id: Option<String>,
    pub status: Option<String>,
    pub message: Option<String>,
    pub data: Option<String>,
}

/// Summary text bundle of a finished transcription.
#[derive(Debug, Clone)]
pub struct SummaryContent {
    pub short: String,
    pub long: String,
    pub all: String,
    pub keywords: Vec<String>,
}

/// One delivery attempt recorded in a task's callback history.
#[derive(Debug, Clone)]
pub struct CallbackHistoryItem {
    pub timestamp: String,
    pub status: String,
    pub code: u32,
}

/// Acknowledgement of a callback registration.
#[derive(Debug, Clone)]
pub struct CallbackResponse {
    pub status: String,
}

/// A share link with its expiry, as granted by the remote service.
#[derive(Debug, Clone)]
pub struct ShareLinkResponse {
    pub share_url: String,
    pub expiration_time: i32,
    pub expired_at: String,
}

/// Identifier of a summary-generation task.
#[derive(Debug, Clone)]
pub struct SummaryCreateResponse {
    pub task_id: String,
}

/// Outcome of a one-shot text translation.
#[derive(Debug, Clone)]
pub struct TextTranslationResponse {
    pub status: String,
    pub data: String,
}

/// Transcription task flavour reported by a status poll.
#[derive(Debug, Clone, Copy, PartialEq, Eq, Structural)]
pub enum StatusTaskType {
    NormalQuality,
    NormalSpeed,
    ShortAsrQuality,
    ShortAsrSpeed,
}

/// The wire name of each task flavour.
pub open spec fn spec_task_type_str(value: StatusTaskType) -> Seq<char> {
    match value {
        StatusTaskType::NormalQuality => "normal_quality"@,
        StatusTaskType::NormalSpeed => "normal_speed"@,
        StatusTaskType::ShortAsrQuality => "short_asr_quality"@,
        StatusTaskType::ShortAsrSpeed => "short_asr_speed"@,
    }
}

/// Renders a task flavour under its wire name.
pub fn status_task_type_to_str(value: StatusTaskType) -> (r: &'static str)
    ensures
        r@ == spec_task_type_str(value),
{
    match value {
        StatusTaskType::NormalQuality => "normal_quality",
        StatusTaskType::NormalSpeed => "normal_speed",
        StatusTaskType::ShortAsrQuality => "short_asr_quality",
        StatusTaskType::ShortAsrSpeed => "short_asr_speed",
    }
}

/// True when a remote status code reports success.
pub open spec fn remote_success(status: u16) -> bool {
    200 <= status < 300
}

/// True when a remote status code reports a credential failure.
pub open spec fn remote_auth_failure(status: u16) -> bool {
    status == 401 || status == 403
}

/// Maps a create-session answer to a typed outcome: the session
/// identifiers on success, an auth error on a credential rejection, a
/// remote error on any other non-success status; the remote message is
/// carried verbatim.
pub fn map_session_create(
    status: u16,
    task_id: String,
    session_id: String,
    usage_id: String,
    max_time: i32,
    message: String,
) -> (r: Result<SessionCreateResult, ApiError>)
    ensures
        r is Ok <==> remote_success(status),
        r is Ok ==> {
            let v = r->Ok_0;
            &&& v.task_id == task_id
            &&& v.session_id == session_id
            &&& v.usage_id == usage_id
            &&& v.max_time == max_time
        },
        remote_auth_failure(status) ==> r == Err::<SessionCreateResult, ApiError>(
            ApiError::Auth(message),
        ),
        !remote_success(status) && !remote_auth_failure(status) ==> r == Err::<
            SessionCreateResult,
            ApiError,
        >(ApiError::Remote(message)),
{
    if 200 <= status && status < 300 {
        Ok(SessionCreateResult { task_id, session_id, usage_id, max_time })
    } else if status == 401 || status == 403 {
        Err(ApiError::Auth(message))
    } else {
        Err(ApiError::Remote(message))
    }
}

impl SessionCloseResult {
    /// True when this outcome records a close that outran its wait
    /// ceiling rather than a remote answer.
    pub open spec fn spec_is_soft_timeout(self) -> bool {
        self.status@ == "timeout"@
    }

    /// The remote's own close answer, carried through unchanged.
    pub fn from_remote(
        status: String,
        duration: Option<i32>,
        error_code: Option<i32>,
        message: Option<String>,
    ) -> (r: SessionCloseResult)
        ensures
            r.status == status,
            r.duration == duration,
            r.error_code == error_code,
            r.message == message,
    {
        SessionCloseResult { status, duration, error_code, message }
    }

    /// The flagged outcome of a close whose wait ceiling elapsed: a soft
    /// timeout, reported as a status rather than raised as an error.
    pub fn soft_timeout() -> (r: SessionCloseResult)
        ensures
            r.spec_is_soft_timeout(),
            r.duration is None,
            r.error_code is None,
            r.message is None,
    {
        SessionCloseResult {
            status: "timeout".to_owned(),
            duration: None,
            error_code: None,
            message: None,
        }
    }

    /// Tells a soft timeout apart from a remote answer.
    pub fn is_soft_timeout(&self) -> (r: bool)
        ensures
            r == self.spec_is_soft_timeout(),
    {
        let flag: String = "timeout".to_owned();
        self.status == flag
    }
}

impl UploadResult {
    /// Flattens an upload answer, tagging which of the two shapes came
    /// back: a task handle or a one-sentence immediate result.
    pub fn from_response(value: UploadResponse) -> (r: UploadResult)
        ensures
            value matches UploadResponse::Normal { task_id } ==> {
                &&& r.kind@ == "normal"@
                &&& r.task_id == Some(task_id)
                &&& r.status is None
                &&& r.message is None
                &&& r.data is None
            },
            value matches UploadResponse::OneSentence { status, message, data } ==> {
                &&& r.kind@ == "one_sentence"@
                &&& r.task_id is None
                &&& r.status == Some(status)
                &&& r.message == Some(message)
                &&& r.data == Some(data)
            },
    {
        match value {
            UploadResponse::Normal { task_id } => UploadResult {
                kind: "normal".to_owned(),
                task_id: Some(task_id),
                status: None,
                message: None,
                data: None,
            },
            UploadResponse::OneSentence { status, message, data } => UploadResult {
                kind: "one_sentence".to_owned(),
                task_id: None,
                status: Some(status),
                message: Some(message),
                data: Some(data),
            },
        }
    }
}

} // verus!
