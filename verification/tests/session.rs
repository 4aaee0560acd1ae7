use anotadoria::session_manager::{
    health_url, health_verdict, SessionState, SessionStatus, ALREADY_RECORDING, NOT_RECORDING,
    PROXY_OFFLINE_EVENT,
};

#[test]
fn new_session_is_idle() {
    let state: SessionState<u32> = SessionState::new(5);
    assert!(!state.is_recording());
    assert_eq!(state.last_emit_ns, 5);
    assert!(state.audio_capture.is_none());
}

#[test]
fn start_then_stop_round_trip() {
    let mut state: SessionState<u32> = SessionState::new(0);
    assert_eq!(state.request_start(), Ok(()));
    assert_eq!(state.complete_start(Ok(7)), Ok(SessionStatus::Recording));
    assert!(state.is_recording());
    assert_eq!(state.stop_recording(), Ok((7, SessionStatus::Idle)));
    assert!(!state.is_recording());
    assert_eq!(state.last_emit_ns, 0);
}

#[test]
fn second_start_is_refused() {
    let mut state: SessionState<u32> = SessionState::new(0);
    state.complete_start(Ok(1)).unwrap();
    assert_eq!(state.request_start(), Err(ALREADY_RECORDING.to_string()));
    assert_eq!(
        state.complete_start(Ok(2)),
        Err("Ya hay una sesión de grabación activa".to_string())
    );
    assert_eq!(state.audio_capture, Some(1));
}

#[test]
fn failed_capture_leaves_session_idle() {
    let mut state: SessionState<u32> = SessionState::new(0);
    let reply = state.complete_start(Err("sin micrófono".to_string()));
    assert_eq!(reply, Err("sin micrófono".to_string()));
    assert!(!state.is_recording());
}

#[test]
fn stop_without_session_is_refused() {
    let mut state: SessionState<u32> = SessionState::new(0);
    assert_eq!(
        state.stop_recording(),
        Err("No hay ninguna sesión activa para detener".to_string())
    );
    state.complete_start(Ok(3)).unwrap();
    state.stop_recording().unwrap();
    assert_eq!(state.stop_recording(), Err(NOT_RECORDING.to_string()));
}

#[test]
fn status_payloads() {
    assert_eq!(SessionStatus::Recording.as_str(), "recording");
    assert_eq!(SessionStatus::Idle.as_str(), "idle");
}

#[test]
fn waveform_frames_are_throttled() {
    const MS: u64 = 1_000_000;
    let mut state: SessionState<u32> = SessionState::new(1000 * MS);
    assert!(!state.frame_due(1010 * MS));
    assert!(!state.frame_due(1016 * MS));
    // 16.9 ms is 16 whole milliseconds: not yet.
    assert!(!state.frame_due(1016 * MS + 900_000));
    assert!(state.frame_due(1017 * MS));
    state.record_frame(1018 * MS);
    assert_eq!(state.last_emit_ns, 1018 * MS);
    // Counted from when the frame was recorded, not from when it was due.
    assert!(!state.frame_due(1034 * MS));
    assert!(state.frame_due(1035 * MS));
    assert!(!state.frame_due(900 * MS));
}

#[test]
fn health_url_replaces_chat_path() {
    assert_eq!(
        health_url("http://127.0.0.1:8000/v1/chat/completions"),
        "http://127.0.0.1:8000/health"
    );
    assert_eq!(health_url("http://localhost:9000/"), "http://localhost:9000/");
    assert_eq!(
        health_url("/v1/chat/completions/v1/chat/completions"),
        "/health/health"
    );
}

#[test]
fn health_verdict_success_statuses() {
    assert_eq!(health_verdict("http://x/health", Some(200)), Ok(()));
    assert_eq!(health_verdict("http://x/health", Some(204)), Ok(()));
    assert_eq!(health_verdict("http://x/health", Some(299)), Ok(()));
}

#[test]
fn health_verdict_error_status() {
    assert_eq!(
        health_verdict("http://x/health", Some(404)),
        Err("Proxy responde pero con error: 404 Not Found".to_string())
    );
    assert_eq!(
        health_verdict("http://x/health", Some(500)),
        Err("Proxy responde pero con error: 500 Internal Server Error".to_string())
    );
    assert_eq!(
        health_verdict("http://x/health", Some(799)),
        Err("Proxy responde pero con error: 799 <unknown status code>".to_string())
    );
}

#[test]
fn health_verdict_unreachable() {
    assert_eq!(
        health_verdict("http://127.0.0.1:8000/health", None),
        Err("No se puede conectar al proxy LLM en http://127.0.0.1:8000/health.\nInicia gemini-proxy-balancer con: uvicorn main:app --port 8000".to_string())
    );
}

#[test]
fn offline_proxy_does_not_block_start() {
    let mut state: SessionState<u32> = SessionState::new(0);
    let reply = state.complete_start_checked(Ok(4), Err("proxy caído".to_string()));
    assert_eq!(reply, Ok((SessionStatus::Recording, Some("proxy caído".to_string()))));
    assert_eq!(state.audio_capture, Some(4));
    assert_eq!(PROXY_OFFLINE_EVENT, "llm_proxy_offline");
}

#[test]
fn healthy_proxy_gives_no_notice() {
    let mut state: SessionState<u32> = SessionState::new(0);
    assert_eq!(state.complete_start_checked(Ok(4), Ok(())), Ok((SessionStatus::Recording, None)));
    assert_eq!(
        state.complete_start_checked(Ok(5), Err("x".to_string())),
        Err(ALREADY_RECORDING.to_string())
    );
    assert_eq!(state.audio_capture, Some(4));
}

#[test]
fn failed_start_gives_no_notice() {
    let mut state: SessionState<u32> = SessionState::new(0);
    assert_eq!(
        state.complete_start_checked(Err("sin micrófono".to_string()), Err("x".to_string())),
        Err("sin micrófono".to_string())
    );
    assert!(!state.is_recording());
}

#[test]
fn starts_and_stops_alternate() {
    let mut state: SessionState<u32> = SessionState::new(0);
    let mut announced = Vec::new();
    if let Ok(s) = state.complete_start(Ok(1)) { announced.push(s); }
    if let Ok(s) = state.complete_start(Ok(2)) { announced.push(s); }
    if let Ok((_, s)) = state.stop_recording() { announced.push(s); }
    if let Ok((_, s)) = state.stop_recording() { announced.push(s); }
    if let Ok(s) = state.complete_start(Err("e".to_string())) { announced.push(s); }
    if let Ok(s) = state.complete_start(Ok(3)) { announced.push(s); }
    assert_eq!(
        announced,
        vec![SessionStatus::Recording, SessionStatus::Idle, SessionStatus::Recording]
    );
}
