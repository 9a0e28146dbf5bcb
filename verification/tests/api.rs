use ucam_enroll::api::extract_data;
use ucam_enroll::api::ApiError;
use ucam_enroll::api::ApiResponse;
use ucam_enroll::concat::concat_bytes;
use ucam_enroll::text::slice_contains_ci;
use ucam_enroll::text::str_contains_ci;

#[test]
fn successful_reply_yields_its_payload() {
    let resp = ApiResponse {
        status: "success".to_string(),
        data: Some(41_u64),
        message: None,
    };
    match extract_data(resp) {
        Ok(d) => assert_eq!(d, 41),
        Err(e) => panic!("expected payload, got {:?}", e),
    }
}

#[test]
fn successful_reply_without_payload_is_missing_data() {
    let resp: ApiResponse<u64> = ApiResponse {
        status: "success".to_string(),
        data: None,
        message: Some("nothing here".to_string()),
    };
    assert!(matches!(extract_data(resp), Err(ApiError::MissingData)));
}

#[test]
fn failed_reply_carries_its_message() {
    let resp: ApiResponse<u64> = ApiResponse {
        status: "error".to_string(),
        data: Some(7),
        message: Some("token expired".to_string()),
    };
    match extract_data(resp) {
        Err(ApiError::RequestFailed { message }) => assert_eq!(message, "token expired"),
        other => panic!("expected RequestFailed, got {:?}", other),
    }
}

#[test]
fn failed_reply_without_message_carries_its_status() {
    let resp: ApiResponse<u64> = ApiResponse {
        status: "throttled".to_string(),
        data: None,
        message: None,
    };
    match extract_data(resp) {
        Err(ApiError::RequestFailed { message }) => assert_eq!(message, "throttled"),
        other => panic!("expected RequestFailed, got {:?}", other),
    }
}

#[test]
fn concat_bytes_joins_two_slices() {
    let joined: [u8; 6] = concat_bytes(b"abc", b"def");
    assert_eq!(&joined, b"abcdef");
}

#[test]
fn concat_bytes_pads_with_zeroes() {
    let joined: [u8; 8] = concat_bytes(b"abc", b"def");
    assert_eq!(&joined, b"abcdef\0\0");
}

#[test]
fn concat_bytes_builds_a_request_path() {
    const LEN: usize = 14;
    let joined: [u8; LEN] = concat_bytes(b"/v3", b"/auth/login");
    assert_eq!(std::str::from_utf8(&joined).unwrap(), "/v3/auth/login");
}

#[test]
fn containment_ignores_ascii_case_only() {
    assert!(str_contains_ci("Fetch Failed: INVALID token", "invalid token"));
    assert!(str_contains_ci("Sec-B", "b"));
    assert!(!str_contains_ci("Sec-A", "b"));
    assert!(str_contains_ci("anything", ""));
    assert!(!str_contains_ci("", "a"));
    assert!(slice_contains_ci(b"UCAM Cloud", b"cloud"));
    assert!(!slice_contains_ci(b"short", b"much too long"));
}
