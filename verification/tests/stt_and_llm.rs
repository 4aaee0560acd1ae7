use anotadoria::config::AppConfig;
use anotadoria::llm_agents::{
    AgentError, ChatChoice, ChatMessageResponse, ChatResponse, LlmAgents, ProxyReply,
};
use anotadoria::prompt_templates::{CLEANER_SYSTEM, SUMMARIZER_SYSTEM};
use anotadoria::stt_client::{
    audio_sender_step, authorization_value, listen_url, prepare_connection, transcript_update,
    DeepgramAlternative, DeepgramChannel, DeepgramResponse, SenderAction, SenderEvent, SttData,
};

fn sample_config(timeout: Option<u64>) -> AppConfig {
    AppConfig {
        vault_path: "/vault".to_string(),
        deepgram_api_key: "dg-key".to_string(),
        language: "es".to_string(),
        model_stt: "nova-3".to_string(),
        llm_proxy_url: "http://127.0.0.1:8000/v1/chat/completions".to_string(),
        llm_model: "gemini-2.5-flash".to_string(),
        llm_timeout_secs: timeout,
        note_subfolder: None,
    }
}

fn response_with(transcripts: &[&str], is_final: bool) -> DeepgramResponse {
    DeepgramResponse {
        channel: DeepgramChannel {
            alternatives: transcripts
                .iter()
                .map(|t| DeepgramAlternative { transcript: t.to_string() })
                .collect(),
        },
        is_final,
    }
}

fn completion(contents: &[&str]) -> ChatResponse {
    ChatResponse {
        choices: contents
            .iter()
            .map(|c| ChatChoice { message: ChatMessageResponse { content: c.to_string() } })
            .collect(),
    }
}

fn builder_error() -> reqwest::Error {
    reqwest::Client::new().get("not a url").build().unwrap_err()
}

#[test]
fn listen_url_carries_model_and_language() {
    assert_eq!(
        listen_url("nova-3", "es"),
        "wss://api.deepgram.com/v1/listen?model=nova-3&language=es&smart_format=true&interim_results=true&encoding=linear16&sample_rate=16000"
    );
}

#[test]
fn authorization_uses_token_scheme() {
    assert_eq!(authorization_value("abc123"), "Token abc123");
}

#[test]
fn connection_settings_from_config() {
    let connection = prepare_connection(&sample_config(None)).unwrap();
    assert_eq!(connection.url, listen_url("nova-3", "es"));
    assert_eq!(connection.authorization, "Token dg-key");
}

#[test]
fn connection_url_is_normalised_by_parser() {
    let mut config = sample_config(None);
    config.model_stt = "nova 3".to_string();
    let connection = prepare_connection(&config).unwrap();
    assert!(connection.url.contains("model=nova%203&language=es"));
}

#[test]
fn final_transcript_is_forwarded() {
    let update = transcript_update(&response_with(&["hola mundo", "ola mundo"], true));
    assert_eq!(update, Some(SttData { text: "hola mundo".to_string(), is_final: true }));
}

#[test]
fn interim_transcript_keeps_its_flag() {
    let update = transcript_update(&response_with(&["hola"], false));
    assert_eq!(update, Some(SttData { text: "hola".to_string(), is_final: false }));
}

#[test]
fn empty_or_missing_transcripts_are_dropped() {
    assert_eq!(transcript_update(&response_with(&[], true)), None);
    assert_eq!(transcript_update(&response_with(&["", "algo"], true)), None);
}

#[test]
fn agent_timeout_defaults_to_sixty_seconds() {
    let agents = LlmAgents::new(&sample_config(None));
    assert_eq!(agents.timeout_secs(), 60);
    assert_eq!(agents.proxy_url(), "http://127.0.0.1:8000/v1/chat/completions");
    assert_eq!(agents.model(), "gemini-2.5-flash");
    let agents = LlmAgents::new(&sample_config(Some(5)));
    assert_eq!(agents.timeout_secs(), 5);
}

#[test]
fn chat_request_has_system_then_user_message() {
    let agents = LlmAgents::new(&sample_config(None));
    let request = agents.chat_request("sistema", "usuario");
    assert_eq!(request.model, "gemini-2.5-flash");
    assert_eq!(request.messages.len(), 2);
    assert_eq!(request.messages[0].role, "system");
    assert_eq!(request.messages[0].content, "sistema");
    assert_eq!(request.messages[1].role, "user");
    assert_eq!(request.messages[1].content, "usuario");
}

#[test]
fn agent_requests_use_their_prompts() {
    let agents = LlmAgents::new(&sample_config(None));
    let clean = agents.clean_transcript_request("texto crudo");
    assert_eq!(clean.messages[0].content, CLEANER_SYSTEM);
    assert_eq!(clean.messages[1].content, "texto crudo");
    let summary = agents.generate_summary_request("texto limpio");
    assert_eq!(summary.messages[0].content, SUMMARIZER_SYSTEM);
    assert_eq!(summary.messages[1].content, "texto limpio");
}

#[test]
fn only_status_200_is_read_as_completion() {
    assert!(LlmAgents::accepts_status(200));
    assert!(!LlmAgents::accepts_status(201));
    assert!(!LlmAgents::accepts_status(429));
}

#[test]
fn first_choice_wins() {
    let reply = LlmAgents::first_choice_content(completion(&["uno", "dos"]));
    assert_eq!(reply.unwrap(), "uno");
    let reply = LlmAgents::first_choice_content(completion(&[]));
    assert!(matches!(reply, Err(AgentError::EmptyResponse)));
}

#[test]
fn settle_completed_and_rejected() {
    let agents = LlmAgents::new(&sample_config(None));
    let ok = agents.settle(ProxyReply::Completed(completion(&["resumen"])));
    assert_eq!(ok.unwrap(), "resumen");
    let rejected = agents.settle(ProxyReply::Rejected { status: 429, body: "cuota".to_string() });
    match rejected {
        Err(AgentError::ProxyError { status, body }) => {
            assert_eq!(status, 429);
            assert_eq!(body, "cuota");
        }
        other => panic!("unexpected {:?}", other),
    }
    let empty = agents.settle(ProxyReply::Completed(completion(&[])));
    assert!(matches!(empty, Err(AgentError::EmptyResponse)));
}

#[test]
fn settle_network_failures() {
    let agents = LlmAgents::new(&sample_config(None));
    let undecodable = agents.settle(ProxyReply::Undecodable(builder_error()));
    assert!(matches!(undecodable, Err(AgentError::Network(_))));
    let not_sent = agents.settle(ProxyReply::SendFailed(builder_error()));
    assert!(matches!(not_sent, Err(AgentError::Network(_))));
}

#[test]
fn send_error_classification() {
    let url = "http://127.0.0.1:8000/v1/chat/completions";
    match AgentError::classify_send_error(true, builder_error(), url) {
        AgentError::ProxyUnreachable(u) => assert_eq!(u, url),
        other => panic!("unexpected {:?}", other),
    }
    assert!(matches!(
        AgentError::classify_send_error(false, builder_error(), url),
        AgentError::Network(_)
    ));
    assert!(matches!(AgentError::from_send_error(builder_error(), url), AgentError::Network(_)));
}

#[test]
fn agent_error_messages() {
    assert_eq!(
        AgentError::ProxyUnreachable("http://127.0.0.1:8000".to_string()).message(),
        "El proxy LLM no está corriendo en http://127.0.0.1:8000. Inicia gemini-proxy-balancer primero."
    );
    assert_eq!(
        AgentError::ProxyError { status: 503, body: "sin llaves".to_string() }.message(),
        "El proxy retornó error 503: sin llaves"
    );
    assert_eq!(AgentError::EmptyResponse.message(), "Respuesta del proxy sin contenido");
    let network = AgentError::Network(builder_error()).message();
    assert_eq!(network, format!("Error de red: {}", builder_error()));
    assert!(network.starts_with("Error de red: builder error"));
}

#[test]
fn sender_forwards_chunks_unchanged() {
    assert_eq!(
        audio_sender_step(false, SenderEvent::Chunk(vec![1, 2, 3])),
        (false, SenderAction::Send(vec![1, 2, 3]))
    );
    assert_eq!(audio_sender_step(false, SenderEvent::Written), (false, SenderAction::Receive));
}

#[test]
fn sender_closes_once_then_stops() {
    assert_eq!(
        audio_sender_step(false, SenderEvent::ChannelClosed),
        (true, SenderAction::Close(Vec::new()))
    );
    assert_eq!(
        audio_sender_step(false, SenderEvent::WriteFailed),
        (true, SenderAction::Close(Vec::new()))
    );
    assert_eq!(audio_sender_step(true, SenderEvent::Written), (true, SenderAction::Stop));
    assert_eq!(audio_sender_step(true, SenderEvent::WriteFailed), (true, SenderAction::Stop));
}
