use dfs_client::dfs;
use dfs_client::error::TransferError;
use dfs_client::json::{failure_text, json_object2};
use dfs_client::lighthouse;
use dfs_client::transfer::begin_download;

#[test]
fn failure_envelope_message_is_surfaced() {
    let body = br#"{"message": "pod already exists"}"#;
    let err = dfs::pod_outcome(false, 400, body).unwrap_err();
    assert!(matches!(err, TransferError::NamespaceFailed(_)));
    assert!(err.message().contains("pod already exists"));
}

#[test]
fn upload_failure_envelope_is_surfaced() {
    let body = br#"{"message": "quota exceeded"}"#;
    let err = dfs::upload_outcome(false, 413, body).unwrap_err();
    assert_eq!(err, TransferError::UploadFailed("quota exceeded".to_string()));
    assert_eq!(err.message(), "upload failed: quota exceeded");
}

#[test]
fn pod_outcome_success_is_ok() {
    assert!(dfs::pod_outcome(true, 201, b"").is_ok());
    assert!(dfs::upload_outcome(true, 200, b"{}").is_ok());
}

#[test]
fn undecodable_failure_body_falls_back_to_status() {
    let err = dfs::pod_outcome(false, 400, b"not json at all").unwrap_err();
    assert_eq!(err.message(), "pod operation failed: HTTP status 400");
    let err = dfs::pod_outcome(false, 503, b"").unwrap_err();
    assert_eq!(err.message(), "pod operation failed: HTTP status 503");
}

#[test]
fn failure_text_prefers_the_message_field() {
    assert_eq!(
        failure_text(500, br#"{"message": "backend down"}"#),
        "backend down"
    );
    assert_eq!(failure_text(500, br#"{"message": 3}"#), "HTTP status 500");
}

#[test]
fn login_without_cookie_fails_authentication() {
    let config = dfs::Config {
        endpoint: "http://gw.example".to_string(),
        username: "alice".to_string(),
        password: "secret".to_string(),
    };
    let err = dfs::login_outcome(&config, true, 200, b"{}", None).unwrap_err();
    assert!(matches!(err, TransferError::AuthenticationFailed(_)));
    assert!(err.message().contains("set-cookie"));
}

#[test]
fn rejected_login_decodes_envelope() {
    let config = dfs::Config {
        endpoint: "http://gw.example".to_string(),
        username: "alice".to_string(),
        password: "wrong".to_string(),
    };
    let body = br#"{"message": "invalid password"}"#;
    let err = dfs::login_outcome(&config, false, 401, body, None).unwrap_err();
    assert_eq!(
        err,
        TransferError::AuthenticationFailed("invalid password".to_string())
    );
}

#[test]
fn share_pod_outcome_reads_sharing_reference() {
    let body = br#"{"podSharingReference": "ref-abc"}"#;
    let shared = dfs::share_pod_outcome(true, 200, body).unwrap();
    assert_eq!(shared.podSharingReference, "ref-abc");
}

#[test]
fn share_pod_outcome_without_reference_is_decode_error() {
    let err = dfs::share_pod_outcome(true, 200, b"{}").unwrap_err();
    assert!(matches!(err, TransferError::DecodeError(_)));
}

#[test]
fn share_pod_outcome_failure_decodes_envelope() {
    let body = br#"{"message": "pod not found"}"#;
    let err = dfs::share_pod_outcome(false, 404, body).unwrap_err();
    assert_eq!(
        err,
        TransferError::NamespaceFailed("pod not found".to_string())
    );
}

#[test]
fn built_body_decodes_back_to_the_same_message() {
    // the verified builder's escaping round-trips through the real
    // JSON decoder, special characters included
    let tricky = "a\"b\\c\nd";
    let body = json_object2("message", tricky, "extra", "x");
    let decoded = dfs::decode_response_message(&body).unwrap();
    assert_eq!(decoded.message, tricky);
    let decoded = lighthouse::decode_response_message(&body).unwrap();
    assert_eq!(decoded.message, tricky);
}

#[test]
fn decode_response_message_requires_a_string_field() {
    assert!(dfs::decode_response_message(b"{}").is_none());
    assert!(dfs::decode_response_message(br#"{"message": true}"#).is_none());
    assert!(dfs::decode_response_message(b"").is_none());
}

#[test]
fn lighthouse_upload_outcome_builds_result() {
    let body = br#"{"Name": "cat.jpg", "Hash": "QmHash1", "Size": "42"}"#;
    let result = lighthouse::upload_outcome(true, 200, body, "job-7").unwrap();
    assert_eq!(result.id, "job-7");
    assert_eq!(result.name, "cat.jpg");
    assert_eq!(result.cid, "QmHash1");
    assert_eq!(result.size, "42");
}

#[test]
fn lighthouse_upload_outcome_missing_field_is_decode_error() {
    let body = br#"{"Name": "cat.jpg", "Size": "42"}"#;
    let err = lighthouse::upload_outcome(true, 200, body, "job-7").unwrap_err();
    assert!(matches!(err, TransferError::DecodeError(_)));
}

#[test]
fn lighthouse_upload_outcome_failure_decodes_envelope() {
    let body = br#"{"message": "invalid api key"}"#;
    let err = lighthouse::upload_outcome(false, 401, body, "job-7").unwrap_err();
    assert_eq!(err, TransferError::UploadFailed("invalid api key".to_string()));
}

#[test]
fn file_info_outcome_reads_all_fields() {
    let body = br#"{"fileSizeInBytes": "42", "cid": "QmHash1", "encryption": false, "fileName": "cat.jpg", "mimeType": "image/jpeg"}"#;
    let info = lighthouse::file_info_outcome(true, 200, body).unwrap();
    assert_eq!(info.fileSizeInBytes, "42");
    assert_eq!(info.cid, "QmHash1");
    assert!(!info.encryption);
    assert_eq!(info.fileName, "cat.jpg");
    assert_eq!(info.mimeType, Some("image/jpeg".to_string()));
}

#[test]
fn file_info_outcome_tolerates_missing_mime_type() {
    let body =
        br#"{"fileSizeInBytes": "42", "cid": "QmHash1", "encryption": true, "fileName": "cat.jpg"}"#;
    let info = lighthouse::file_info_outcome(true, 200, body).unwrap();
    assert!(info.encryption);
    assert_eq!(info.mimeType, None);
}

#[test]
fn file_info_outcome_missing_required_field_is_decode_error() {
    let body = br#"{"cid": "QmHash1", "encryption": true, "fileName": "cat.jpg"}"#;
    let err = lighthouse::file_info_outcome(true, 200, body).unwrap_err();
    assert!(matches!(err, TransferError::DecodeError(_)));
}

#[test]
fn file_info_outcome_failure_decodes_envelope() {
    let body = br#"{"message": "cid not found"}"#;
    let err = lighthouse::file_info_outcome(false, 404, body).unwrap_err();
    assert_eq!(err, TransferError::InfoFailed("cid not found".to_string()));
}

#[test]
fn begin_download_failure_decodes_envelope() {
    let body = br#"{"message": "file not found"}"#;
    let err = begin_download(false, 404, body, None).err().unwrap();
    assert_eq!(err, TransferError::DownloadFailed("file not found".to_string()));
    assert!(err.message().contains("file not found"));
}

#[test]
fn error_texts_carry_their_payloads() {
    let cases = vec![
        (
            TransferError::SourceUnavailable("no such file".to_string()),
            "source unavailable: no such file",
        ),
        (
            TransferError::SinkUnavailable("permission denied".to_string()),
            "sink unavailable: permission denied",
        ),
        (
            TransferError::TransportError("timeout".to_string()),
            "transport error: timeout",
        ),
        (
            TransferError::AuthenticationFailed("bad password".to_string()),
            "authentication failed: bad password",
        ),
        (
            TransferError::DownloadFailed("gone".to_string()),
            "download failed: gone",
        ),
        (
            TransferError::DecodeError("bad schema".to_string()),
            "decode error: bad schema",
        ),
        (
            TransferError::InfoFailed("unknown cid".to_string()),
            "file info failed: unknown cid",
        ),
    ];
    for (err, text) in cases {
        assert_eq!(err.message(), text);
    }
}
