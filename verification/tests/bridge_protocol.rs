use suno_mv::bridge::credentials::{body_credential_field, is_credential_field};
use suno_mv::bridge::create_browser_bridge;
use suno_mv::bridge::http::{
    check_bind_host, next_poll_action, parse_bridge_request, render_response,
    transport_error_from_parse, validate_authorization, AcceptOutcome, HttpRequestParseError,
    HttpRequestParts, HttpRequestReader, PollAction, ReadStep,
};
use suno_mv::bridge::protocol::{
    AlignedLyricTiming, BridgePayload, BridgeProtocolError, PayloadType, Seconds,
    MAX_TIMING_RECORDS, PROTOCOL_VERSION, PROVIDER_SUNO,
};
use suno_mv::bridge::session::BridgeSession;
use suno_mv::bridge::transport::{BridgeTransportError, TransportConfig};

fn secs(value: f64) -> Seconds {
    Seconds::from_bits(value.to_bits())
}

fn valid_payload() -> BridgePayload {
    BridgePayload {
        protocol_version: PROTOCOL_VERSION,
        request_id: "request-1".to_string(),
        provider: PROVIDER_SUNO.to_string(),
        payload_type: PayloadType::AlignedLyrics,
        song_id: "song-1".to_string(),
        timings: vec![AlignedLyricTiming {
            text: "line one".to_string(),
            start_seconds: secs(0.0),
            end_seconds: secs(2.5),
        }],
    }
}

fn valid_payload_json() -> Vec<u8> {
    br#"{"protocol_version":1,"request_id":"request-1","provider":"suno","type":"aligned_lyrics","song_id":"song-1","timings":[{"text":"line one","start_s":0.0,"end_s":2.5}]}"#
        .to_vec()
}

fn bridge_session() -> BridgeSession {
    BridgeSession::new("request-1", "token-1")
}

fn transport_config() -> TransportConfig {
    TransportConfig {
        max_body_mb: 1,
        max_timing_records: 10,
        ..TransportConfig::default()
    }
}

fn valid_request() -> HttpRequestParts {
    HttpRequestParts::new(
        "POST",
        "/v1/result",
        Some("Bearer token-1".to_string()),
        valid_payload_json(),
    )
}

#[test]
fn validates_protocol_payload_shape() {
    assert_eq!(valid_payload().validate("request-1"), Ok(()));
}

#[test]
fn parses_valid_http_request_parts() {
    let payload = parse_bridge_request(
        &valid_request(),
        &bridge_session(),
        &transport_config(),
        Ok(valid_payload()),
    )
    .unwrap();

    assert_eq!(payload.song_id, "song-1");
    assert_eq!(payload.payload_type, PayloadType::AlignedLyrics);
}

#[test]
fn rejects_non_post_http_request_parts() {
    let request = HttpRequestParts {
        method: "GET".to_string(),
        ..valid_request()
    };

    assert_eq!(
        parse_bridge_request(
            &request,
            &bridge_session(),
            &transport_config(),
            Ok(valid_payload())
        ),
        Err(HttpRequestParseError::InvalidMethod)
    );
}

#[test]
fn rejects_wrong_http_path() {
    let request = HttpRequestParts {
        path: "/wrong".to_string(),
        ..valid_request()
    };

    assert_eq!(
        parse_bridge_request(
            &request,
            &bridge_session(),
            &transport_config(),
            Ok(valid_payload())
        ),
        Err(HttpRequestParseError::InvalidPath)
    );
}

#[test]
fn rejects_missing_bearer_auth() {
    let request = HttpRequestParts {
        authorization: None,
        ..valid_request()
    };

    assert_eq!(
        parse_bridge_request(
            &request,
            &bridge_session(),
            &transport_config(),
            Ok(valid_payload())
        ),
        Err(HttpRequestParseError::MissingAuthorization)
    );
}

#[test]
fn rejects_wrong_bearer_token() {
    let request = HttpRequestParts {
        authorization: Some("Bearer wrong".to_string()),
        ..valid_request()
    };

    assert_eq!(
        parse_bridge_request(
            &request,
            &bridge_session(),
            &transport_config(),
            Ok(valid_payload())
        ),
        Err(HttpRequestParseError::InvalidAuthorization)
    );
}

#[test]
fn rejects_body_over_configured_limit() {
    let config = TransportConfig {
        max_body_mb: 0,
        ..transport_config()
    };

    assert_eq!(
        parse_bridge_request(
            &valid_request(),
            &bridge_session(),
            &config,
            Ok(valid_payload())
        ),
        Err(HttpRequestParseError::BodyTooLarge {
            actual: valid_request().body.len(),
            max: 0,
        })
    );
}

#[test]
fn rejects_invalid_json_body() {
    let request = HttpRequestParts {
        body: b"{".to_vec(),
        ..valid_request()
    };

    assert!(matches!(
        parse_bridge_request(
            &request,
            &bridge_session(),
            &transport_config(),
            Err("EOF while parsing an object at line 1 column 1".to_string())
        ),
        Err(HttpRequestParseError::InvalidJson(_))
    ));
}

#[test]
fn rejects_protocol_errors_from_http_request_parts() {
    let payload = BridgePayload {
        request_id: "wrong-request".to_string(),
        ..valid_payload()
    };

    assert_eq!(
        parse_bridge_request(
            &valid_request(),
            &bridge_session(),
            &transport_config(),
            Ok(payload)
        ),
        Err(HttpRequestParseError::Protocol(
            BridgeProtocolError::RequestIdMismatch
        ))
    );
}

#[test]
fn rejects_empty_song_id() {
    let payload = BridgePayload {
        song_id: " ".to_string(),
        ..valid_payload()
    };

    assert_eq!(
        payload.validate("request-1"),
        Err(BridgeProtocolError::MissingField("song_id"))
    );
}

#[test]
fn rejects_empty_timings() {
    let payload = BridgePayload {
        timings: Vec::new(),
        ..valid_payload()
    };

    assert_eq!(
        payload.validate("request-1"),
        Err(BridgeProtocolError::EmptyTimings)
    );
}

#[test]
fn rejects_negative_start_time() {
    let payload = BridgePayload {
        timings: vec![AlignedLyricTiming {
            text: "line one".to_string(),
            start_seconds: secs(-0.1),
            end_seconds: secs(1.0),
        }],
        ..valid_payload()
    };

    assert_eq!(
        payload.validate("request-1"),
        Err(BridgeProtocolError::InvalidTiming {
            index: 0,
            reason: "start_seconds must be non-negative",
        })
    );
}

fn protocol_payload() -> BridgePayload {
    BridgePayload {
        protocol_version: PROTOCOL_VERSION,
        request_id: "request-1".to_string(),
        provider: PROVIDER_SUNO.to_string(),
        payload_type: PayloadType::AlignedLyrics,
        song_id: "song-1".to_string(),
        timings: vec![AlignedLyricTiming {
            text: "hello".to_string(),
            start_seconds: secs(0.0),
            end_seconds: secs(1.25),
        }],
    }
}

#[test]
fn accepts_valid_aligned_lyrics_payload() {
    assert_eq!(protocol_payload().validate("request-1"), Ok(()));
}

#[test]
fn rejects_request_id_mismatch() {
    assert_eq!(
        protocol_payload().validate("different-request"),
        Err(BridgeProtocolError::RequestIdMismatch)
    );
}

#[test]
fn rejects_unsupported_protocol_version() {
    let payload = BridgePayload {
        protocol_version: 2,
        ..protocol_payload()
    };

    assert_eq!(
        payload.validate("request-1"),
        Err(BridgeProtocolError::UnsupportedProtocolVersion {
            actual: 2,
            expected: PROTOCOL_VERSION,
        })
    );
}

#[test]
fn rejects_unsupported_provider() {
    let payload = BridgePayload {
        provider: "other".to_string(),
        ..protocol_payload()
    };

    assert_eq!(
        payload.validate("request-1"),
        Err(BridgeProtocolError::UnsupportedProvider("other".to_string()))
    );
}

#[test]
fn rejects_empty_timing_text() {
    let payload = BridgePayload {
        timings: vec![AlignedLyricTiming {
            text: " ".to_string(),
            start_seconds: secs(0.0),
            end_seconds: secs(1.0),
        }],
        ..protocol_payload()
    };

    assert_eq!(
        payload.validate("request-1"),
        Err(BridgeProtocolError::InvalidTiming {
            index: 0,
            reason: "text is required",
        })
    );
}

#[test]
fn rejects_invalid_timing_range() {
    let payload = BridgePayload {
        timings: vec![AlignedLyricTiming {
            text: "hello".to_string(),
            start_seconds: secs(2.0),
            end_seconds: secs(1.0),
        }],
        ..protocol_payload()
    };

    assert_eq!(
        payload.validate("request-1"),
        Err(BridgeProtocolError::InvalidTiming {
            index: 0,
            reason: "end_seconds must be greater than or equal to start_seconds",
        })
    );
}

#[test]
fn rejects_non_localhost_bind_config() {
    let config = TransportConfig {
        host: "0.0.0.0".to_string(),
        ..transport_config()
    };

    assert!(matches!(
        check_bind_host(&config),
        Err(BridgeTransportError::BindFailed(_))
    ));
    assert_eq!(check_bind_host(&transport_config()), Ok(()));
}

#[test]
fn returns_timeout_without_request() {
    assert_eq!(
        next_poll_action(AcceptOutcome::WouldBlock, true),
        PollAction::Stop(BridgeTransportError::Timeout)
    );
    assert_eq!(
        next_poll_action(AcceptOutcome::WouldBlock, false),
        PollAction::Sleep
    );
    assert_eq!(
        next_poll_action(AcceptOutcome::Accepted, true),
        PollAction::HandleConnection
    );
}

fn raw_post(path: &str, token: &str, body: &[u8]) -> Vec<u8> {
    let mut request = format!(
        "POST {path} HTTP/1.1\r\nHost: 127.0.0.1:4000\r\nAuthorization: Bearer {token}\r\nContent-Length: {}\r\n\r\n",
        body.len()
    )
    .into_bytes();
    request.extend_from_slice(body);
    request
}

fn read_all(reader: &mut HttpRequestReader, bytes: &[u8], chunk: usize) -> ReadStep {
    let mut step = ReadStep::NeedMore;
    for piece in bytes.chunks(chunk) {
        step = reader.push(piece);
        if matches!(step, ReadStep::Finished(_)) {
            break;
        }
    }
    step
}

#[test]
fn receives_exactly_one_valid_post() {
    let config = transport_config();
    let session = bridge_session();
    let bytes = raw_post("/v1/result", "token-1", &valid_payload_json());
    let mut reader = HttpRequestReader::new(&config);
    let parts = match read_all(&mut reader, &bytes, 7) {
        ReadStep::Finished(Ok(parts)) => parts,
        _ => panic!("a complete request"),
    };
    assert_eq!(parts.method, "POST");
    assert_eq!(parts.path, "/v1/result");
    assert_eq!(parts.authorization, Some("Bearer token-1".to_string()));
    assert_eq!(parts.body, valid_payload_json());

    let payload = parse_bridge_request(&parts, &session, &config, Ok(valid_payload()))
        .map_err(transport_error_from_parse);
    let response = render_response(&payload);

    assert!(response.starts_with("HTTP/1.1 200 OK"));
    assert_eq!(payload.unwrap().song_id, "song-1");
}

#[test]
fn shuts_down_after_rejected_request() {
    let config = transport_config();
    let session = bridge_session();
    let bytes = raw_post("/v1/result", "wrong-token", &valid_payload_json());
    let mut reader = HttpRequestReader::new(&config);
    let parts = match read_all(&mut reader, &bytes, bytes.len()) {
        ReadStep::Finished(Ok(parts)) => parts,
        _ => panic!("a complete request"),
    };
    let result = parse_bridge_request(&parts, &session, &config, Ok(valid_payload()))
        .map_err(transport_error_from_parse);
    let response = render_response(&result);

    assert!(response.starts_with("HTTP/1.1 400 Bad Request"));
    assert!(matches!(
        result,
        Err(BridgeTransportError::RequestRejected(_))
    ));
}

#[test]
fn reader_rejects_declared_body_over_limit() {
    let config = TransportConfig {
        max_body_mb: 0,
        ..transport_config()
    };
    let mut reader = HttpRequestReader::new(&config);
    let step = reader.push(b"POST /v1/result HTTP/1.1\r\nContent-Length: 5\r\n\r\n");
    match step {
        ReadStep::Finished(Err(BridgeTransportError::RequestRejected(m))) => {
            assert_eq!(m, "request body too large: 5; max 0")
        }
        _ => panic!("the body is too large"),
    }
}

#[test]
fn reader_reports_incomplete_requests() {
    let config = transport_config();
    let mut reader = HttpRequestReader::new(&config);
    assert!(matches!(reader.push(b"POST /v1/res"), ReadStep::NeedMore));
    assert_eq!(
        reader.end_of_stream(),
        Err(BridgeTransportError::RequestRejected(
            "request did not include complete HTTP headers".to_string()
        ))
    );

    let mut reader = HttpRequestReader::new(&config);
    assert!(matches!(
        reader.push(b"POST /v1/result HTTP/1.1\r\nContent-Length: 10\r\n\r\nabc"),
        ReadStep::NeedMore
    ));
    assert_eq!(
        reader.end_of_stream(),
        Err(BridgeTransportError::RequestRejected(
            "request body ended before content-length was satisfied".to_string()
        ))
    );
}

#[test]
fn reader_rejects_bad_content_length() {
    let config = transport_config();
    let mut reader = HttpRequestReader::new(&config);
    match reader.push(b"POST /v1/result HTTP/1.1\r\nContent-Length: ten\r\n\r\n") {
        ReadStep::Finished(Err(BridgeTransportError::RequestRejected(m))) => {
            assert_eq!(m, "invalid content-length header")
        }
        _ => panic!("the header is invalid"),
    }
}

#[test]
fn answers_carry_their_status() {
    let timeout: Result<BridgePayload, BridgeTransportError> = Err(BridgeTransportError::Timeout);
    assert_eq!(
        render_response(&timeout),
        "HTTP/1.1 408 Request Timeout\r\nContent-Length: 7\r\nConnection: close\r\n\r\ntimeout"
    );
    let io: Result<BridgePayload, BridgeTransportError> =
        Err(BridgeTransportError::Io("reset".to_string()));
    assert!(render_response(&io).starts_with("HTTP/1.1 500 Internal Server Error"));
    assert_eq!(
        render_response(&Ok(valid_payload())),
        "HTTP/1.1 200 OK\r\nContent-Length: 2\r\nConnection: close\r\n\r\nok"
    );
}

#[test]
fn authorization_needs_the_exact_bearer_token() {
    assert_eq!(validate_authorization(Some("Bearer token-1"), "token-1"), Ok(()));
    assert_eq!(
        validate_authorization(Some("bearer token-1"), "token-1"),
        Err(HttpRequestParseError::InvalidAuthorization)
    );
    assert_eq!(
        validate_authorization(Some("Bearer token-12"), "token-1"),
        Err(HttpRequestParseError::InvalidAuthorization)
    );
    assert_eq!(
        validate_authorization(None, "token-1"),
        Err(HttpRequestParseError::MissingAuthorization)
    );
}

#[test]
fn rejects_too_many_timing_records() {
    let mut payload = protocol_payload();
    payload.timings = (0..3)
        .map(|i| AlignedLyricTiming {
            text: format!("line {i}"),
            start_seconds: secs(i as f64),
            end_seconds: secs(i as f64 + 0.5),
        })
        .collect();
    assert_eq!(
        payload.validate_with_limits("request-1", 2),
        Err(BridgeProtocolError::TooManyTimingRecords { actual: 3, max: 2 })
    );
    assert_eq!(payload.validate_with_limits("request-1", 3), Ok(()));
    assert_eq!(
        payload.validate("request-1"),
        payload.validate_with_limits("request-1", MAX_TIMING_RECORDS)
    );
}

#[test]
fn rejects_non_finite_times_and_missing_request_id() {
    let payload = BridgePayload {
        timings: vec![AlignedLyricTiming {
            text: "x".to_string(),
            start_seconds: secs(0.0),
            end_seconds: secs(f64::NAN),
        }],
        ..protocol_payload()
    };
    assert!(matches!(
        payload.validate("request-1"),
        Err(BridgeProtocolError::InvalidTiming { index: 0, .. })
    ));
    let payload = BridgePayload {
        request_id: "  ".to_string(),
        ..protocol_payload()
    };
    assert_eq!(
        payload.validate("  "),
        Err(BridgeProtocolError::MissingField("request_id"))
    );
}

#[test]
fn generated_sessions_are_fresh() {
    let bridge = create_browser_bridge().expect("a session");
    assert_eq!(bridge.transport_config, TransportConfig::default());
    assert_eq!(bridge.session.request_id.len(), 32);
    assert_eq!(bridge.session.bearer_token.len(), 64);
    assert!(bridge
        .session
        .bearer_token
        .chars()
        .all(|c| c.is_ascii_hexdigit() && !c.is_ascii_uppercase()));
    assert_ne!(bridge.session.request_id, bridge.session.bearer_token);
    let other = create_browser_bridge().expect("a session");
    assert_ne!(bridge.session.bearer_token, other.session.bearer_token);
}

#[test]
fn default_transport_config() {
    let config = TransportConfig::default();
    assert_eq!(config.host, "127.0.0.1");
    assert_eq!(config.timeout_seconds, 60);
    assert_eq!(config.max_body_mb, 2);
    assert_eq!(config.max_timing_records, 5000);
}

#[test]
fn rejects_credential_like_fields() {
    let body = br#"{"protocol_version":1,"request_id":"request-1","provider":"suno","type":"aligned_lyrics","song_id":"song-1","timings":[{"text":"a","start_s":0.0,"end_s":1.0}],"cookie":"x"}"#.to_vec();
    let request = HttpRequestParts {
        body,
        ..valid_request()
    };
    let result = parse_bridge_request(
        &request,
        &bridge_session(),
        &transport_config(),
        Ok(valid_payload()),
    );
    assert_eq!(
        result,
        Err(HttpRequestParseError::CredentialField("cookie".to_string()))
    );
    assert!(matches!(
        result.map_err(transport_error_from_parse),
        Err(BridgeTransportError::RequestRejected(m)) if m == "credential-like field not accepted: cookie"
    ));

    let nested = br#"{"song_id":"s","timings":[{"text":"a","Authorization":"Bearer x"}]}"#.to_vec();
    let request = HttpRequestParts {
        body: nested,
        ..valid_request()
    };
    assert_eq!(
        parse_bridge_request(
            &request,
            &bridge_session(),
            &transport_config(),
            Ok(valid_payload())
        ),
        Err(HttpRequestParseError::CredentialField("Authorization".to_string()))
    );
}

#[test]
fn credential_field_names() {
    assert!(is_credential_field("Cookie"));
    assert!(is_credential_field("BROWSER-TOKEN"));
    assert!(is_credential_field("device_id"));
    assert!(!is_credential_field("song_id"));
    assert!(!is_credential_field("request_id"));
    assert_eq!(body_credential_field(&valid_payload_json()), None);
    assert_eq!(body_credential_field(b"not json"), None);
    assert_eq!(
        body_credential_field(br#"[{"x":{"session":1}}]"#),
        Some("session".to_string())
    );
}

#[test]
fn sessions_are_spelled_from_drawn_words() {
    let s = BridgeSession::from_words(&[1, u64::MAX], &[0, 0x0123456789abcdef, 2, 3]);
    assert_eq!(s.request_id, "0000000000000001ffffffffffffffff");
    assert_eq!(
        s.bearer_token,
        "00000000000000000123456789abcdef00000000000000020000000000000003"
    );
    assert_eq!(
        suno_mv::bridge::session::hex_id(&[0xa]),
        "000000000000000a"
    );
}
