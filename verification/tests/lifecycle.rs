use dianyaapi::py_types::map_session_create;
use dianyaapi::py_types::status_task_type_to_str;
use dianyaapi::py_types::SessionCloseResult;
use dianyaapi::py_types::StatusTaskType;
use dianyaapi::py_types::UploadResponse;
use dianyaapi::py_types::UploadResult;
use dianyaapi::types::ApiError;

fn create(status: u16) -> Result<dianyaapi::py_types::SessionCreateResult, ApiError> {
    map_session_create(
        status,
        "task-1".to_string(),
        "session-1".to_string(),
        "usage-1".to_string(),
        3600,
        "remote message".to_string(),
    )
}

#[test]
fn successful_create_carries_the_identifiers() {
    let v = create(200).unwrap();
    assert_eq!(v.task_id, "task-1");
    assert_eq!(v.session_id, "session-1");
    assert_eq!(v.usage_id, "usage-1");
    assert_eq!(v.max_time, 3600);
    assert!(create(204).is_ok());
}

#[test]
fn credential_rejection_maps_to_auth_error() {
    for status in [401u16, 403] {
        match create(status) {
            Err(ApiError::Auth(message)) => assert_eq!(message, "remote message"),
            other => panic!("AuthError expected for {status}, got {other:?}"),
        }
    }
}

#[test]
fn other_failures_map_to_remote_error() {
    for status in [400u16, 404, 500, 503] {
        match create(status) {
            Err(ApiError::Remote(message)) => assert_eq!(message, "remote message"),
            other => panic!("RemoteError expected for {status}, got {other:?}"),
        }
    }
}

#[test]
fn close_passes_the_remote_answer_through() {
    let v = SessionCloseResult::from_remote(
        "closed".to_string(),
        Some(125),
        None,
        Some("done".to_string()),
    );
    assert_eq!(v.status, "closed");
    assert_eq!(v.duration, Some(125));
    assert_eq!(v.error_code, None);
    assert_eq!(v.message.as_deref(), Some("done"));
    assert!(!v.is_soft_timeout());
}

#[test]
fn close_past_the_ceiling_is_a_flagged_soft_timeout() {
    let v = SessionCloseResult::soft_timeout();
    assert!(v.is_soft_timeout());
    assert_eq!(v.status, "timeout");
    assert_eq!(v.duration, None);
    assert_eq!(v.error_code, None);
    assert_eq!(v.message, None);
}

#[test]
fn upload_task_answer_is_tagged_normal() {
    let v = UploadResult::from_response(UploadResponse::Normal {
        task_id: "task-9".to_string(),
    });
    assert_eq!(v.kind, "normal");
    assert_eq!(v.task_id.as_deref(), Some("task-9"));
    assert_eq!(v.status, None);
    assert_eq!(v.message, None);
    assert_eq!(v.data, None);
}

#[test]
fn upload_immediate_answer_is_tagged_one_sentence() {
    let v = UploadResult::from_response(UploadResponse::OneSentence {
        status: "ok".to_string(),
        message: "done".to_string(),
        data: "hello".to_string(),
    });
    assert_eq!(v.kind, "one_sentence");
    assert_eq!(v.task_id, None);
    assert_eq!(v.status.as_deref(), Some("ok"));
    assert_eq!(v.message.as_deref(), Some("done"));
    assert_eq!(v.data.as_deref(), Some("hello"));
}

#[test]
fn task_types_render_under_their_wire_names() {
    assert_eq!(status_task_type_to_str(StatusTaskType::NormalQuality), "normal_quality");
    assert_eq!(status_task_type_to_str(StatusTaskType::NormalSpeed), "normal_speed");
    assert_eq!(status_task_type_to_str(StatusTaskType::ShortAsrQuality), "short_asr_quality");
    assert_eq!(status_task_type_to_str(StatusTaskType::ShortAsrSpeed), "short_asr_speed");
}
