use node_bridge::chat;
use node_bridge::get_miner_status;
use node_bridge::get_models;
use node_bridge::start_miner;
use node_bridge::status_is_success;
use node_bridge::stop_miner;
use node_bridge::u16_to_decimal;
use node_bridge::ChatChoice;
use node_bridge::ChatMessage;
use node_bridge::ChatOutcome;
use node_bridge::ChatResponse;
use node_bridge::EndpointRegistry;
use node_bridge::ModelsOutcome;
use node_bridge::ProbeOutcome;

#[test]
fn default_url_before_any_set() {
    let reg = EndpointRegistry::new();
    assert_eq!(reg.get_node_url(), "http://localhost:9090");
}

#[test]
fn set_then_get_returns_the_url() {
    let mut reg = EndpointRegistry::new();
    reg.set_node_url("http://10.0.0.7:8181".to_string());
    assert_eq!(reg.get_node_url(), "http://10.0.0.7:8181");
    reg.set_node_url("http://localhost:9091".to_string());
    assert_eq!(reg.get_node_url(), "http://localhost:9091");
}

#[test]
fn endpoint_urls_compose_from_current_base() {
    let mut reg = EndpointRegistry::new();
    assert_eq!(reg.stats_url(), "http://localhost:9090/api/stats");
    assert_eq!(reg.chat_url(), "http://localhost:9090/v1/chat/completions");
    assert_eq!(reg.models_url(), "http://localhost:9090/v1/models");
    reg.set_node_url("http://node.local".to_string());
    assert_eq!(reg.stats_url(), "http://node.local/api/stats");
    assert_eq!(reg.chat_url(), "http://node.local/v1/chat/completions");
    assert_eq!(reg.models_url(), "http://node.local/v1/models");
}

#[test]
fn success_status_range() {
    assert!(!status_is_success(199));
    assert!(status_is_success(200));
    assert!(status_is_success(204));
    assert!(status_is_success(299));
    assert!(!status_is_success(300));
    assert!(!status_is_success(404));
    assert!(!status_is_success(500));
}

#[test]
fn decimal_rendering() {
    assert_eq!(u16_to_decimal(0), "0");
    assert_eq!(u16_to_decimal(7), "7");
    assert_eq!(u16_to_decimal(42), "42");
    assert_eq!(u16_to_decimal(200), "200");
    assert_eq!(u16_to_decimal(404), "404");
    assert_eq!(u16_to_decimal(65535), "65535");
}

#[test]
fn miner_status_running_on_success_reply() {
    let s = get_miner_status(&ProbeOutcome::Response(200));
    assert!(s.running);
    assert_eq!(s.tasks_completed, 0);
    assert_eq!(s.total_rewards, 0);
    assert_eq!(s.gpu_utilization, 0);
    let s = get_miner_status(&ProbeOutcome::Response(299));
    assert!(s.running);
}

#[test]
fn miner_status_stopped_on_failure() {
    let s = get_miner_status(&ProbeOutcome::Unreachable);
    assert!(!s.running);
    assert_eq!(s.tasks_completed, 0);
    assert_eq!(s.total_rewards, 0);
    assert_eq!(s.gpu_utilization, 0);
    let s = get_miner_status(&ProbeOutcome::Response(404));
    assert!(!s.running);
    let s = get_miner_status(&ProbeOutcome::Response(500));
    assert!(!s.running);
}

fn sample_response() -> ChatResponse {
    ChatResponse {
        id: "chat-1".to_string(),
        model: "zen-mini-0.5b".to_string(),
        choices: vec![
            ChatChoice {
                index: 0,
                message: ChatMessage {
                    role: "assistant".to_string(),
                    content: "first".to_string(),
                },
                finish_reason: "stop".to_string(),
            },
            ChatChoice {
                index: 1,
                message: ChatMessage {
                    role: "assistant".to_string(),
                    content: "second".to_string(),
                },
                finish_reason: "length".to_string(),
            },
        ],
    }
}

#[test]
fn chat_reply_passes_choices_through_in_order() {
    let r = chat(ChatOutcome::Reply(sample_response())).unwrap();
    assert_eq!(r.id, "chat-1");
    assert_eq!(r.model, "zen-mini-0.5b");
    assert_eq!(r.choices.len(), 2);
    assert_eq!(r.choices[0].index, 0);
    assert_eq!(r.choices[0].message.role, "assistant");
    assert_eq!(r.choices[0].message.content, "first");
    assert_eq!(r.choices[0].finish_reason, "stop");
    assert_eq!(r.choices[1].index, 1);
    assert_eq!(r.choices[1].message.content, "second");
    assert_eq!(r.choices[1].finish_reason, "length");
}

#[test]
fn chat_error_status_message() {
    let e = chat(ChatOutcome::ErrorStatus(404)).unwrap_err();
    assert_eq!(e, "API error: 404");
    assert!(e.contains("API error:"));
    let e = chat(ChatOutcome::ErrorStatus(503)).unwrap_err();
    assert_eq!(e, "API error: 503");
}

#[test]
fn chat_parse_failure_surfaces() {
    let e = chat(ChatOutcome::MalformedReply("missing field `id`".to_string())).unwrap_err();
    assert_eq!(e, "missing field `id`");
}

#[test]
fn chat_transport_failure_surfaces() {
    let e = chat(ChatOutcome::Unreachable("connection refused".to_string())).unwrap_err();
    assert_eq!(e, "connection refused");
}

#[test]
fn models_fallback_when_unreachable() {
    let ids = get_models(ModelsOutcome::Unreachable).unwrap();
    assert_eq!(ids, vec!["zen-mini-0.5b".to_string()]);
}

#[test]
fn models_fallback_on_error_status() {
    let ids = get_models(ModelsOutcome::ErrorStatus(500)).unwrap();
    assert_eq!(ids, vec!["zen-mini-0.5b".to_string()]);
}

#[test]
fn models_reply_kept_in_order() {
    let ids = get_models(ModelsOutcome::Reply(vec!["a".to_string(), "b".to_string()])).unwrap();
    assert_eq!(ids, vec!["a".to_string(), "b".to_string()]);
}

#[test]
fn models_parse_failure_surfaces() {
    let e = get_models(ModelsOutcome::MalformedReply("invalid type".to_string())).unwrap_err();
    assert_eq!(e, "invalid type");
}

#[test]
fn start_miner_names_the_wallet() {
    let m = start_miner("wallet123".to_string()).unwrap();
    assert_eq!(m, "Miner started for wallet: wallet123");
    let m = start_miner("".to_string()).unwrap();
    assert_eq!(m, "Miner started for wallet: ");
}

#[test]
fn stop_miner_fixed_message() {
    assert_eq!(stop_miner().unwrap(), "Miner stopped");
}
