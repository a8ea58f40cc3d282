use zkom_client::{
    decimal_string, generate_system_fingerprint, ConfigManager, DeviceError, DeviceHeartbeatResponse, DeviceInfo,
    DeviceManager, DeviceMetrics, DeviceVerifyResponse, EnvironmentError, HeartbeatAction, HeartbeatEvent,
    HeartbeatLoop, HeartbeatPhase, JobParams, NodeConfig, ProbeStatus, PromptParam, RuntimeChecker, TaskMessage,
    TaskProcessor, TaskProcessorConfig, TaskStep, TextToImageParams, API_BASE_URL,
};

fn processor() -> TaskProcessor {
    TaskProcessor::new(TaskProcessorConfig {
        nats_server: "nats://localhost:4222".to_string(),
        sd_url: "http://localhost:7860".to_string(),
        node_id: "node-a".to_string(),
    })
}

fn params(prompt: PromptParam) -> JobParams {
    JobParams { prompt, negative_prompt: None, width: Some(768), height: None, steps: Some(u64::from(u32::MAX) + 2), seed: None }
}

fn job(node: &str, prompt: PromptParam) -> TaskMessage {
    TaskMessage { task_id: "t-1".to_string(), node_id: node.to_string(), params: params(prompt) }
}

#[test]
fn job_for_other_node_is_rejected_without_generation() {
    let p = processor();
    match p.process_task(Ok(job("node-b", PromptParam::Text("cat".to_string())))) {
        TaskStep::Publish(r) => {
            assert_eq!(r.task_id, "t-1");
            assert_eq!(r.status, "failed");
            assert_eq!(r.error_stack.as_deref(), Some("Invalid node ID"));
            assert_eq!(r.node_id.as_deref(), Some("node-a"));
            assert!(r.result_urls.is_none());
            assert_eq!(r.retries, 0);
        }
        other => panic!("unexpected {:?}", other),
    }
}

#[test]
fn unparsable_payload_gets_fresh_failed_result() {
    let p = processor();
    let a = match p.process_task(Err("expected value at line 1".to_string())) {
        TaskStep::Publish(r) => r,
        other => panic!("unexpected {:?}", other),
    };
    let b = match p.process_task(Err("x".to_string())) {
        TaskStep::Publish(r) => r,
        other => panic!("unexpected {:?}", other),
    };
    assert_eq!(a.status, "failed");
    assert_eq!(a.task_id.len(), 36);
    assert_ne!(a.task_id, b.task_id);
    assert_eq!(a.error_stack.as_deref(), Some("Failed to parse task message: expected value at line 1"));
}

#[test]
fn prompt_is_required_and_textual() {
    let p = processor();
    match p.process_task(Ok(job("node-a", PromptParam::Missing))) {
        TaskStep::Publish(r) => assert_eq!(r.error_stack.as_deref(), Some("Missing required parameter: prompt")),
        other => panic!("unexpected {:?}", other),
    }
    match p.process_task(Ok(job("node-a", PromptParam::NotText))) {
        TaskStep::Publish(r) => assert_eq!(r.error_stack.as_deref(), Some("Prompt must be a string")),
        other => panic!("unexpected {:?}", other),
    }
}

#[test]
fn valid_job_goes_to_generation_with_defaults() {
    let p = processor();
    match p.process_task(Ok(job("node-a", PromptParam::Text("cat".to_string())))) {
        TaskStep::Generate { task_id, params } => {
            assert_eq!(task_id, "t-1");
            assert_eq!(params.prompt, "cat");
            assert_eq!(params.width, Some(768));
            assert_eq!(params.steps, Some(1));
            let r = params.resolved();
            assert_eq!((r.width, r.height, r.steps, r.seed), (768, 512, 1, -1));
            assert_eq!(r.negative_prompt, "");
        }
        other => panic!("unexpected {:?}", other),
    }
    let t = TextToImageParams { prompt: "p".to_string(), negative_prompt: Some("n".to_string()), width: None, height: None, steps: None, seed: Some(7) };
    let r = t.resolved();
    assert_eq!((r.width, r.height, r.steps, r.seed), (512, 512, 20, 7));
    assert_eq!(r.negative_prompt, "n");
}

#[test]
fn finished_jobs_carry_urls_or_error() {
    let p = processor();
    let ok = p.finish_task("t-2".to_string(), Ok(vec!["data:image/png;base64,AA".to_string()]), 1500);
    assert_eq!(ok.status, "completed");
    assert_eq!(ok.result_urls, Some(vec!["data:image/png;base64,AA".to_string()]));
    assert!(ok.error_stack.is_none());
    assert_eq!(ok.duration_ms, 1500);
    let bad = p.finish_task("t-3".to_string(), Err("boom".to_string()), 20);
    assert_eq!(bad.status, "failed");
    assert_eq!(bad.error_stack.as_deref(), Some("boom"));
    assert!(bad.result_urls.is_none());
    assert_eq!(TaskProcessor::result_subject("t-3"), "results.t-3");
}

fn metrics() -> DeviceMetrics {
    DeviceMetrics { gpu_utilization: 40, gpu_memory_used: 2048, gpu_temperature: 61, timestamp: "2024-01-01T00:00:00+00:00".to_string() }
}

#[test]
fn heartbeat_cycle_without_refresh() {
    let (mut h, a) = HeartbeatLoop::new("tok".to_string(), 60);
    assert!(matches!(a, HeartbeatAction::CheckExpiry));
    assert!(matches!(h.step(HeartbeatEvent::ExpiryChecked(Ok(false))), HeartbeatAction::CollectTelemetry));
    assert!(matches!(h.step(HeartbeatEvent::Telemetry(Some(metrics()))), HeartbeatAction::SendHeartbeat(_)));
    assert!(matches!(h.step(HeartbeatEvent::HeartbeatSent(Ok(()))), HeartbeatAction::Sleep(60)));
    assert!(matches!(h.step(HeartbeatEvent::Woke), HeartbeatAction::CheckExpiry));
    assert_eq!(h.phase(), HeartbeatPhase::CheckRefresh);
}

#[test]
fn heartbeat_refreshes_when_due_or_unknown() {
    let (mut h, _) = HeartbeatLoop::new("old".to_string(), 60);
    assert!(matches!(h.step(HeartbeatEvent::ExpiryChecked(Ok(true))), HeartbeatAction::Refresh));
    match h.step(HeartbeatEvent::Refreshed(Ok("new".to_string()))) {
        HeartbeatAction::StoreAccessToken(t) => assert_eq!(t, "new"),
        other => panic!("unexpected {:?}", other),
    }
    assert_eq!(h.access_token(), "new");
    assert_eq!(h.phase(), HeartbeatPhase::CollectTelemetry);

    let (mut h, _) = HeartbeatLoop::new("old".to_string(), 60);
    let parse_error = Err(DeviceError::TokenParseError("bad".to_string()));
    assert!(matches!(h.step(HeartbeatEvent::ExpiryChecked(parse_error)), HeartbeatAction::Refresh));
    assert!(matches!(h.step(HeartbeatEvent::Refreshed(Err(DeviceError::RefreshError("x".to_string())))), HeartbeatAction::CollectTelemetry));
    assert_eq!(h.access_token(), "old");
}

#[test]
fn heartbeat_401_refreshes_and_waits_for_next_tick() {
    let (mut h, _) = HeartbeatLoop::new("old".to_string(), 60);
    h.step(HeartbeatEvent::ExpiryChecked(Ok(false)));
    h.step(HeartbeatEvent::Telemetry(Some(metrics())));
    let refused = DeviceManager::heartbeat_outcome(401, "401 Unauthorized", Err(String::new()));
    let err = refused.unwrap_err();
    assert!(err.is_unauthorized());
    assert!(matches!(h.step(HeartbeatEvent::HeartbeatSent(Err(err))), HeartbeatAction::Refresh));
    assert!(matches!(h.step(HeartbeatEvent::Refreshed(Ok("fresh".to_string()))), HeartbeatAction::StoreAccessToken(_)));
    assert_eq!(h.phase(), HeartbeatPhase::Sleep);
    assert_eq!(h.access_token(), "fresh");
}

#[test]
fn heartbeat_other_failures_are_not_fatal() {
    let (mut h, _) = HeartbeatLoop::new("tok".to_string(), 30);
    h.step(HeartbeatEvent::ExpiryChecked(Ok(false)));
    assert!(matches!(h.step(HeartbeatEvent::Telemetry(None)), HeartbeatAction::Sleep(30)));
    h.step(HeartbeatEvent::Woke);
    h.step(HeartbeatEvent::ExpiryChecked(Ok(false)));
    h.step(HeartbeatEvent::Telemetry(Some(metrics())));
    let e = DeviceError::HeartbeatError("HTTP 500 Internal Server Error".to_string());
    assert!(!e.is_unauthorized());
    assert!(matches!(h.step(HeartbeatEvent::HeartbeatSent(Err(e))), HeartbeatAction::Sleep(30)));
}

#[test]
fn config_setters_change_only_their_fields() {
    let mut c = ConfigManager::with_config("/tmp/zkom/config.json".to_string(), NodeConfig::default());
    assert_eq!(c.get_config().base_url, API_BASE_URL);
    assert!(!c.is_registered());
    c.set_device_code("DEV".to_string());
    c.set_user_code("USER".to_string());
    c.set_tokens("a".to_string(), "r".to_string());
    c.set_node_id("n".to_string());
    c.update_access_token("a2".to_string());
    let cfg = c.get_config();
    assert_eq!(cfg.device_code.as_deref(), Some("DEV"));
    assert_eq!(cfg.user_code.as_deref(), Some("USER"));
    assert_eq!(cfg.access_token.as_deref(), Some("a2"));
    assert_eq!(cfg.refresh_token.as_deref(), Some("r"));
    assert_eq!(cfg.node_id.as_deref(), Some("n"));
    assert!(c.is_registered());
    c.update_config(NodeConfig::default());
    assert!(c.get_config().access_token.is_none());
    assert_eq!(c.config_path(), "/tmp/zkom/config.json");
}

#[test]
fn runtime_check_reports_first_failure() {
    let r = RuntimeChecker::new();
    assert_eq!(r.check_environment(ProbeStatus::Succeeded, ProbeStatus::Succeeded), Ok(()));
    assert_eq!(r.check_environment(ProbeStatus::NotRunnable, ProbeStatus::Failed), Err(EnvironmentError::CudaNotRunnable));
    assert_eq!(r.check_environment(ProbeStatus::Failed, ProbeStatus::Succeeded), Err(EnvironmentError::CudaCheckFailed));
    assert_eq!(r.check_environment(ProbeStatus::Succeeded, ProbeStatus::NotRunnable), Err(EnvironmentError::DockerNotRunnable));
    assert_eq!(r.check_environment(ProbeStatus::Succeeded, ProbeStatus::Failed), Err(EnvironmentError::DockerCheckFailed));
}

#[test]
fn device_fingerprint_is_sha256_of_fields() {
    let m = DeviceManager::new("https://b".to_string());
    let mut info = DeviceInfo {
        cpu_serial: "cpu1".to_string(),
        gpu_uuid: Some("gpu-9".to_string()),
        system_fingerprint: "fp".to_string(),
        installation_hash: m.generate_installation_hash(),
    };
    assert_eq!(m.generate_device_fingerprint(&info), "34e7c3334844b7fa5571f96ddd8a54a10e2d709e7055a981f12dde8c7f8b7b9e");
    info.gpu_uuid = None;
    assert_eq!(m.generate_device_fingerprint(&info), "d844ec8c9aad8987ba4e2eda9ec81cf49c91790c0772c1226b736c4689cd2ea0");
}

#[test]
fn protocol_urls_and_headers() {
    let m = DeviceManager::new("https://b".to_string());
    assert_eq!(m.init_url(), "https://b/api/nodes/init");
    assert_eq!(m.verify_url("U1"), "https://b/api/nodes/verify/U1");
    assert_eq!(m.heartbeat_url(), "https://b/api/nodes/device/heartbeat");
    assert_eq!(m.refresh_url(), "https://b/api/nodes/device/refresh");
    assert_eq!(DeviceManager::bearer("t"), "Bearer t");
}

#[test]
fn verify_status_mapping() {
    let body = || Ok(DeviceVerifyResponse { node_id: "n".to_string(), access_token: "a".to_string(), refresh_token: "r".to_string() });
    assert!(DeviceManager::verify_outcome(200, "200 OK", body()).is_ok());
    assert!(matches!(DeviceManager::verify_outcome(200, "200 OK", Err("eof".to_string())), Err(DeviceError::VerifyError(_))));
    assert!(matches!(DeviceManager::verify_outcome(410, "410 Gone", body()), Err(DeviceError::CodeExpired)));
    assert!(matches!(DeviceManager::verify_outcome(403, "403 Forbidden", body()), Err(DeviceError::DeviceDisabled)));
    assert!(matches!(DeviceManager::verify_outcome(404, "404 Not Found", body()), Err(DeviceError::VerifyError(_))));
}

#[test]
fn other_call_outcomes() {
    let hb = || Ok(DeviceHeartbeatResponse { status: "ok".to_string(), message: "m".to_string() });
    assert!(DeviceManager::heartbeat_outcome(200, "200 OK", hb()).is_ok());
    match DeviceManager::heartbeat_outcome(500, "500 Internal Server Error", hb()) {
        Err(DeviceError::HeartbeatError(m)) => assert_eq!(m, "HTTP 500 Internal Server Error"),
        other => panic!("unexpected {:?}", other),
    }
    assert!(matches!(DeviceManager::refresh_outcome(401, "401 Unauthorized", Err(String::new())), Err(DeviceError::RefreshError(_))));
    assert!(matches!(DeviceManager::init_outcome(500, "500", Err(String::new())), Err(DeviceError::InitError(_))));
}

#[test]
fn system_fingerprint_layout() {
    assert_eq!(decimal_string(0), "0");
    assert_eq!(decimal_string(16384), "16384");
    assert_eq!(decimal_string(u64::MAX), "18446744073709551615");
    assert_eq!(generate_system_fingerprint("Ryzen 9", 32768, "linux"), "CPU;Ryzen 9;MEM;32768;OS;linux");
}
