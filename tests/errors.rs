use elevenlabs_tts::voices::all_voices::arnold;
use elevenlabs_tts::models::elevanlabs_models::ELEVEN_TURBO_V2_5;
use elevenlabs_tts::{classify_response, parse_retry_after, ElevenLabsTTSClient, ElevenLabsTTSError};

#[test]
fn status_429_is_a_rate_limit() {
    let r = classify_response(429, b"slow down".to_vec(), Some(30));
    match r {
        Err(ElevenLabsTTSError::RateLimitError { retry_after, message }) => {
            assert_eq!(retry_after, Some(30));
            assert_eq!(message, "slow down");
        }
        other => panic!("unexpected {:?}", other),
    }
}

#[test]
fn status_401_is_an_authentication_error() {
    let r = classify_response(401, b"bad key".to_vec(), None);
    match r {
        Err(ElevenLabsTTSError::AuthenticationError(m)) => assert_eq!(m, "bad key"),
        other => panic!("unexpected {:?}", other),
    }
}

#[test]
fn status_402_is_quota_exceeded() {
    let r = classify_response(402, b"no credits".to_vec(), None);
    match r {
        Err(ElevenLabsTTSError::QuotaExceededError(m)) => assert_eq!(m, "no credits"),
        other => panic!("unexpected {:?}", other),
    }
}

#[test]
fn status_500_is_an_api_error() {
    let r = classify_response(500, b"boom".to_vec(), None);
    match r {
        Err(ElevenLabsTTSError::ApiError { status, message }) => {
            assert_eq!(status, 500);
            assert_eq!(message, "boom");
        }
        other => panic!("unexpected {:?}", other),
    }
}

#[test]
fn unreadable_error_body_is_read_lossily() {
    let r = classify_response(404, vec![b'n', 0xff, b'o'], None);
    match r {
        Err(ElevenLabsTTSError::ApiError { status, message }) => {
            assert_eq!(status, 404);
            assert_eq!(message, "n\u{fffd}o");
        }
        other => panic!("unexpected {:?}", other),
    }
}

#[test]
fn mock_success_returns_the_bytes_untouched() {
    let client = ElevenLabsTTSClient::with_base_url("key", "http://mock");
    let post = client
        .text_to_speech("Hello")
        .voice(&arnold())
        .model(ELEVEN_TURBO_V2_5)
        .prepare()
        .unwrap();
    assert!(post.url.starts_with("http://mock/text-to-speech/"));
    let audio = classify_response(200, vec![0x01, 0x02, 0x03], None).unwrap();
    assert_eq!(audio, vec![0x01, 0x02, 0x03]);
    let empty = classify_response(204, vec![], None).unwrap();
    assert!(empty.is_empty());
}

#[test]
fn from_status_classifies() {
    let e = ElevenLabsTTSError::from_status(418, "teapot".to_string(), None);
    assert!(matches!(e, ElevenLabsTTSError::ApiError { status: 418, .. }));
    let e = ElevenLabsTTSError::from_status(429, "x".to_string(), None);
    assert!(matches!(e, ElevenLabsTTSError::RateLimitError { retry_after: None, .. }));
}

#[test]
fn error_descriptions() {
    let e = ElevenLabsTTSError::from_status(503, "down".to_string(), None);
    assert_eq!(e.to_string(), "API error (503): down");
    let e = ElevenLabsTTSError::from_status(429, "busy".to_string(), Some(12));
    assert_eq!(e.to_string(), "Rate limit exceeded (retry in 12s): busy");
    let e = ElevenLabsTTSError::from_status(429, "busy".to_string(), None);
    assert_eq!(e.to_string(), "Rate limit exceeded: busy");
    let e = ElevenLabsTTSError::from_status(401, "nope".to_string(), None);
    assert_eq!(e.to_string(), "Authentication failed: nope");
    let e = ElevenLabsTTSError::from_status(402, "empty".to_string(), None);
    assert_eq!(e.to_string(), "Quota exceeded: empty");
    let e = ElevenLabsTTSError::ValidationError("bad".to_string());
    assert_eq!(e.to_string(), "Validation error: bad");
}

#[test]
fn transport_failure_without_status_is_a_request_error() {
    let err = reqwest::Client::new().get("not a url").build().unwrap_err();
    let e = ElevenLabsTTSError::from(err);
    assert!(matches!(e, ElevenLabsTTSError::RequestError(_)));
    assert!(e.to_string().starts_with("Request failed: "));
    assert!(e.to_string().len() > "Request failed: ".len());
}

#[test]
fn json_errors_are_parse_errors() {
    let err = serde_json::from_str::<serde_json::Value>("{").unwrap_err();
    let e = ElevenLabsTTSError::from(err);
    assert!(matches!(e, ElevenLabsTTSError::ParseError(_)));
    assert!(e.to_string().starts_with("Failed to parse response: "));
}

#[test]
fn retry_after_seconds_are_read() {
    assert_eq!(parse_retry_after(b"120"), Some(120));
    assert_eq!(parse_retry_after(b"0"), Some(0));
    assert_eq!(parse_retry_after(b"18446744073709551615"), Some(u64::MAX));
    assert_eq!(parse_retry_after(b"18446744073709551616"), None);
    assert_eq!(parse_retry_after(b""), None);
    assert_eq!(parse_retry_after(b"12a"), None);
    assert_eq!(parse_retry_after(b"Wed, 21 Oct 2015 07:28:00 GMT"), None);
}

fn builder_error() -> reqwest::Error {
    reqwest::Client::new().get("not a url").build().unwrap_err()
}

#[test]
fn transport_statuses_take_fixed_messages() {
    let e = ElevenLabsTTSError::from_transport(Some(401), "raw".to_string(), builder_error());
    assert!(matches!(e, ElevenLabsTTSError::AuthenticationError(ref m) if m == "Invalid API key"));
    let e = ElevenLabsTTSError::from_transport(Some(429), "raw".to_string(), builder_error());
    assert!(matches!(
        e,
        ElevenLabsTTSError::RateLimitError { retry_after: None, ref message } if message == "Too many requests"
    ));
    let e = ElevenLabsTTSError::from_transport(Some(402), "raw".to_string(), builder_error());
    assert!(matches!(e, ElevenLabsTTSError::QuotaExceededError(ref m) if m == "Insufficient credits"));
    let e = ElevenLabsTTSError::from_transport(Some(500), "raw".to_string(), builder_error());
    assert!(matches!(e, ElevenLabsTTSError::ApiError { status: 500, ref message } if message == "raw"));
    let e = ElevenLabsTTSError::from_transport(None, "raw".to_string(), builder_error());
    assert!(matches!(e, ElevenLabsTTSError::RequestError(_)));
}

#[test]
fn empty_error_body_gives_empty_message() {
    let r = classify_response(401, vec![], None);
    assert!(matches!(r, Err(ElevenLabsTTSError::AuthenticationError(ref m)) if m.is_empty()));
}
