use zkom_client::{
    attempt_budget, classify_reply, BackendReply, DeviceError, DeviceInitResponse, DeviceVerifyResponse,
    ErrorClass, GenerationStep, RegistrationEnd, RegistrationFlow, RegistrationStep, SDConfig, StableDiffusion,
    StreamAction, StreamEvent, StreamState, stream_step,
};

fn init_response(expires_at: &str) -> DeviceInitResponse {
    DeviceInitResponse {
        device_code: "DEV".to_string(),
        verification_uri: "https://example.test/verify".to_string(),
        user_code: "USER".to_string(),
        expires_at: expires_at.to_string(),
    }
}

fn verified() -> DeviceVerifyResponse {
    DeviceVerifyResponse {
        node_id: "3f2c6c1e-1b1a-4c1e-9a53-6f1f7b8a0c11".to_string(),
        access_token: "access".to_string(),
        refresh_token: "refresh".to_string(),
    }
}

// 2024-01-01T00:00:00Z
const NOW: i64 = 1704067200;

#[test]
fn registration_succeeds_on_fourth_poll() {
    let init = init_response("2024-01-01T00:00:30Z");
    let mut flow = RegistrationFlow::start(&init, NOW, 5, "https://base.test".to_string()).unwrap();
    assert_eq!(flow.max_attempts(), 6);
    assert!(matches!(flow.first_step(), RegistrationStep::Poll));
    let mut stored = None;
    for poll in 1..=6 {
        let outcome = if poll < 4 { Err(DeviceError::VerifyError("pending".to_string())) } else { Ok(verified()) };
        match flow.on_verify(outcome) {
            RegistrationStep::WaitThenPoll(s) => assert_eq!(s, 5),
            RegistrationStep::Succeeded(c) => {
                stored = Some(c);
                break;
            }
            other => panic!("unexpected step {:?}", other),
        }
    }
    let c = stored.expect("credential");
    assert_eq!(flow.attempts(), 4);
    assert_eq!(c.access_token, "access");
    assert_eq!(c.refresh_token, "refresh");
    assert_eq!(c.node_id, "3f2c6c1e-1b1a-4c1e-9a53-6f1f7b8a0c11");
    assert_eq!(c.base_url, "https://base.test");
}

#[test]
fn registration_times_out_without_credential() {
    let init = init_response("2024-01-01T00:00:30Z");
    let mut flow = RegistrationFlow::start(&init, NOW, 5, "https://base.test".to_string()).unwrap();
    let mut end = None;
    let mut polls = 0;
    while end.is_none() {
        polls += 1;
        match flow.on_verify(Err(DeviceError::NetworkError("down".to_string()))) {
            RegistrationStep::WaitThenPoll(_) => {}
            RegistrationStep::Ended(e) => end = Some(e),
            other => panic!("unexpected step {:?}", other),
        }
    }
    assert_eq!(end, Some(RegistrationEnd::VerificationTimeout));
    assert_eq!(polls, 6);
}

#[test]
fn registration_terminal_refusals() {
    let init = init_response("2024-01-01T00:05:00Z");
    let mut flow = RegistrationFlow::start(&init, NOW, 5, String::new()).unwrap();
    assert!(matches!(flow.on_verify(Err(DeviceError::CodeExpired)), RegistrationStep::Ended(RegistrationEnd::CodeExpired)));
    let mut flow = RegistrationFlow::start(&init, NOW, 5, String::new()).unwrap();
    assert!(matches!(
        flow.on_verify(Err(DeviceError::DeviceDisabled)),
        RegistrationStep::Ended(RegistrationEnd::DeviceDisabled)
    ));
}

#[test]
fn registration_expired_or_invalid_expiry() {
    let init = init_response("2023-12-31T23:59:00Z");
    let flow = RegistrationFlow::start(&init, NOW, 5, String::new()).unwrap();
    assert_eq!(flow.max_attempts(), 0);
    assert!(matches!(flow.first_step(), RegistrationStep::Ended(RegistrationEnd::VerificationTimeout)));
    let bad = init_response("tomorrow");
    assert!(matches!(RegistrationFlow::start(&bad, NOW, 5, String::new()), Err(DeviceError::InitError(_))));
}

#[test]
fn budget_is_floor_of_remaining_over_interval() {
    assert_eq!(attempt_budget(NOW + 30, NOW, 5), 6);
    assert_eq!(attempt_budget(NOW + 34, NOW, 5), 6);
    assert_eq!(attempt_budget(NOW + 4, NOW, 5), 0);
    assert_eq!(attempt_budget(NOW - 10, NOW, 5), 0);
    assert_eq!(attempt_budget(i64::MAX, i64::MIN, 1), u64::MAX);
}

fn backend() -> StableDiffusion {
    StableDiffusion::new(SDConfig { base_url: "http://localhost:7860".to_string(), timeout: None })
}

fn server_error() -> BackendReply {
    BackendReply::HttpError { code: 500, status_line: "500 Internal Server Error".to_string(), body: "oops".to_string() }
}

#[test]
fn generate_succeeds_on_third_attempt() {
    let sd = backend();
    let replies = vec![server_error(), server_error(), BackendReply::Images(vec!["QUJD".to_string()])];
    let mut result = None;
    let mut waits = Vec::new();
    for (i, reply) in replies.into_iter().enumerate() {
        match sd.after_reply(i as u32 + 1, reply) {
            GenerationStep::RetryAfter(d) => waits.push(d),
            GenerationStep::Done(urls) => {
                result = Some((i + 1, urls));
                break;
            }
            GenerationStep::Failed(e) => panic!("failed: {}", e),
        }
    }
    let (attempt, urls) = result.expect("success");
    assert_eq!(attempt, 3);
    assert_eq!(waits, vec![1000, 2000]);
    assert_eq!(urls, vec!["data:image/png;base64,QUJD".to_string()]);
}

#[test]
fn client_errors_are_fatal_unless_transient() {
    let sd = backend();
    let not_found = BackendReply::HttpError { code: 404, status_line: "404 Not Found".to_string(), body: "no".to_string() };
    assert_eq!(classify_reply(&not_found), ErrorClass::Fatal);
    assert!(matches!(sd.after_reply(1, not_found), GenerationStep::Failed(_)));
    for body in ["CUDA out of memory. Tried", "'NoneType' object has no attribute", "expected scalar type Half"] {
        let r = BackendReply::HttpError { code: 422, status_line: "422".to_string(), body: body.to_string() };
        assert_eq!(classify_reply(&r), ErrorClass::Retryable);
    }
    assert_eq!(classify_reply(&server_error()), ErrorClass::Retryable);
    assert_eq!(classify_reply(&BackendReply::Unparsable("eof".to_string())), ErrorClass::Retryable);
    assert_eq!(classify_reply(&BackendReply::Unreachable("refused".to_string())), ErrorClass::Retryable);
}

#[test]
fn empty_images_retry_then_fail() {
    let sd = backend();
    assert!(matches!(sd.after_reply(1, BackendReply::Images(vec![])), GenerationStep::RetryAfter(1000)));
    assert!(matches!(sd.after_reply(5, BackendReply::Images(vec![])), GenerationStep::Failed(_)));
    assert!(matches!(sd.after_reply(5, server_error()), GenerationStep::Failed(_)));
}

#[test]
fn backend_urls_and_timeout() {
    let sd = backend();
    assert_eq!(sd.txt2img_url(), "http://localhost:7860/sdapi/v1/txt2img");
    assert_eq!(sd.timeout_ms(), 120000);
    assert_eq!(StableDiffusion::base64_to_image_url("xyz"), "data:image/png;base64,xyz");
    let sd2 = StableDiffusion::new(SDConfig { base_url: String::new(), timeout: Some(5) });
    assert_eq!(sd2.timeout_ms(), 5);
}

#[test]
fn stream_reconnects_with_backoff_then_fails() {
    let mut s = StreamState::Consuming;
    let (n, a) = stream_step(s, StreamEvent::Received);
    assert_eq!((n, a), (StreamState::Consuming, StreamAction::HandleThenAck));
    let (n, a) = stream_step(s, StreamEvent::ReceiveFailed);
    assert_eq!(a, StreamAction::Wait(5));
    s = n;
    let (n, a) = stream_step(s, StreamEvent::Waited);
    assert_eq!((n, a), (StreamState::Reconnecting(0), StreamAction::Reconnect));
    s = n;
    let mut waits = Vec::new();
    loop {
        let (n, a) = stream_step(s, StreamEvent::ReconnectFailed);
        s = n;
        match a {
            StreamAction::Wait(d) => {
                waits.push(d);
                let (n2, a2) = stream_step(s, StreamEvent::Waited);
                assert_eq!(a2, StreamAction::Reconnect);
                s = n2;
            }
            StreamAction::Stop => break,
            other => panic!("unexpected {:?}", other),
        }
    }
    assert_eq!(waits, vec![2, 4]);
    assert_eq!(s, StreamState::Failed);
    assert_eq!(stream_step(s, StreamEvent::Received), (StreamState::Failed, StreamAction::Stop));
}

#[test]
fn stream_resumes_after_successful_reconnect() {
    let (s, _) = stream_step(StreamState::Reconnecting(1), StreamEvent::Reconnected);
    assert_eq!(s, StreamState::Consuming);
}
