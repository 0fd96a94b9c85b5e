use cnctd_ai::ask::config::AskConfig;
use cnctd_ai::ask::msg::{Msg, Role};
use cnctd_ai::ask::request::{AskOptions, AskRequest, Temperature};
use cnctd_ai::client::anthropic::{map_anthropic_failure, AnthropicApi};
use cnctd_ai::client::openai::{finish_reason_str, map_oai_err, OpenAiApi, ProviderFailure};
use cnctd_ai::client::{FinishSignal, ProviderAPI, WireMessage};
use cnctd_ai::error::AiError;
use cnctd_ai::types::ProviderId;
use serde_json::Value;

fn msg(role: Role, content: &str, name: Option<&str>) -> Msg {
    Msg { role, content: content.to_string(), name: name.map(|n| n.to_string()) }
}

fn wire(role: Role, content: &str, id: Option<&str>) -> WireMessage {
    WireMessage { role, content: content.to_string(), tool_call_id: id.map(|n| n.to_string()) }
}

fn transcript() -> AskRequest {
    AskRequest {
        provider: ProviderId::OpenAI,
        model: Some("m".to_string()),
        system: Some("sys".to_string()),
        messages: vec![
            msg(Role::User, "q1", None),
            msg(Role::Assistant, "a1", None),
            msg(Role::Tool, "result", Some("call_7")),
            msg(Role::System, "extra", None),
            msg(Role::User, "q2", None),
        ],
        options: AskOptions {
            temperature: Some(Temperature { milli: 250 }),
            max_output_tokens: None,
            json_mode: Some(true),
            stream: None,
        },
        context_refs: vec![],
    }
}

#[test]
fn openai_maps_every_role_inline() {
    let cfg = AskConfig::default_openai("k".to_string());
    let r = OpenAiApi::build_request(&cfg, &transcript());
    assert_eq!(r.api, ProviderAPI::OpenAI);
    assert_eq!(r.model, "gpt-5-nano");
    assert_eq!(r.system, None);
    assert_eq!(
        r.messages,
        vec![
            wire(Role::System, "sys", None),
            wire(Role::User, "q1", None),
            wire(Role::Assistant, "a1", None),
            wire(Role::Tool, "result", Some("call_7")),
            wire(Role::System, "extra", None),
            wire(Role::User, "q2", None),
        ]
    );
    assert_eq!(r.temperature, Some(Temperature { milli: 250 }));
    assert_eq!(r.max_tokens, 1024);
    assert!(r.json_mode);
}

#[test]
fn openai_tool_without_name_gets_empty_id() {
    let cfg = AskConfig::default_openai("k".to_string());
    let mut req = transcript();
    req.system = None;
    req.messages = vec![msg(Role::Tool, "r", None)];
    req.options.json_mode = None;
    let r = OpenAiApi::build_request(&cfg, &req);
    assert_eq!(r.messages, vec![wire(Role::Tool, "r", Some(""))]);
    assert!(!r.json_mode);
}

#[test]
fn anthropic_drops_tool_messages() {
    let cfg = AskConfig::default_anthropic("k".to_string());
    let r = AnthropicApi::build_request(&cfg, &transcript());
    assert_eq!(r.api, ProviderAPI::Anthropic);
    assert_eq!(
        r.messages,
        vec![wire(Role::User, "q1", None), wire(Role::Assistant, "a1", None), wire(Role::User, "q2", None)]
    );
    assert_eq!(r.system, Some("sys\n\nextra".to_string()));
    assert_eq!(r.max_tokens, 1024);
    assert!(!r.json_mode);
}

#[test]
fn anthropic_single_tool_message_between_turns() {
    let cfg = AskConfig::default_anthropic("k".to_string());
    let mut req = transcript();
    req.system = None;
    req.messages = vec![
        msg(Role::User, "before", None),
        msg(Role::Tool, "tool output", Some("id")),
        msg(Role::Assistant, "after", None),
    ];
    req.options.max_output_tokens = Some(64);
    let r = AnthropicApi::build_request(&cfg, &req);
    assert_eq!(r.messages, vec![wire(Role::User, "before", None), wire(Role::Assistant, "after", None)]);
    assert_eq!(r.system, None);
    assert_eq!(r.max_tokens, 64);
}

#[test]
fn anthropic_system_messages_without_instruction() {
    let cfg = AskConfig::default_anthropic("k".to_string());
    let mut req = transcript();
    req.system = None;
    req.messages = vec![msg(Role::System, "only", None), msg(Role::User, "hi", None)];
    let r = AnthropicApi::build_request(&cfg, &req);
    assert_eq!(r.system, Some("only".to_string()));
    assert_eq!(r.messages, vec![wire(Role::User, "hi", None)]);
}

#[test]
fn anthropic_model_list() {
    assert_eq!(
        AnthropicApi::model_ids(),
        vec!["default", "sonnet", "opus", "haiku", "sonnet[1m]", "opusplan"]
    );
}

#[test]
fn finish_reasons_normalized() {
    assert_eq!(finish_reason_str(FinishSignal::Stop), "stop");
    assert_eq!(finish_reason_str(FinishSignal::Length), "length");
    assert_eq!(finish_reason_str(FinishSignal::ToolCalls), "tool_call");
    assert_eq!(finish_reason_str(FinishSignal::FunctionCall), "tool_call");
    assert_eq!(finish_reason_str(FinishSignal::ContentFilter), "content_filter");
}

#[test]
fn failures_map_into_taxonomy() {
    let api = |code: Option<&str>| ProviderFailure::Api {
        status: Some(400),
        code: code.map(|c| c.to_string()),
        message: "boom".to_string(),
    };
    let status = |s: u16| ProviderFailure::Api { status: Some(s), code: None, message: "m".to_string() };
    assert_eq!(map_oai_err(status(401)), AiError::Auth);
    assert_eq!(map_oai_err(status(429)), AiError::RateLimited);
    assert_eq!(map_oai_err(status(500)), AiError::Provider("m".to_string()));
    assert_eq!(
        map_oai_err(ProviderFailure::Api { status: None, code: None, message: "n".to_string() }),
        AiError::Provider("n".to_string())
    );
    assert_eq!(map_oai_err(api(Some("401"))), AiError::Auth);
    assert_eq!(map_oai_err(api(Some("http_401_unauthorized"))), AiError::Auth);
    assert_eq!(map_oai_err(api(Some("429"))), AiError::RateLimited);
    assert_eq!(map_oai_err(api(Some("invalid_request"))), AiError::Provider("boom".to_string()));
    assert_eq!(map_oai_err(api(None)), AiError::Provider("boom".to_string()));
    assert_eq!(map_oai_err(ProviderFailure::Stream("eof".to_string())), AiError::Provider("eof".to_string()));
    assert_eq!(
        map_oai_err(ProviderFailure::Transport { timed_out: true, detail: "t".to_string() }),
        AiError::Timeout
    );
    assert_eq!(
        map_oai_err(ProviderFailure::Transport { timed_out: false, detail: "dns".to_string() }),
        AiError::Provider("dns".to_string())
    );
    assert_eq!(map_oai_err(ProviderFailure::Other("x".to_string())), AiError::Provider("x".to_string()));
}

#[test]
fn completion_normalized() {
    let r = OpenAiApi::normalize_completion(
        Some("4".to_string()),
        Some(FinishSignal::Length),
        Some((5, 1, 6)),
        Value::Null,
    );
    assert_eq!(r.text, "4");
    assert_eq!(r.finish_reason, "length");
    let u = r.usage.unwrap();
    assert_eq!((u.prompt_tokens, u.completion_tokens, u.total_tokens), (Some(5), Some(1), Some(6)));
    let r = OpenAiApi::normalize_completion(None, None, None, Value::Bool(true));
    assert_eq!(r.text, "");
    assert_eq!(r.finish_reason, "stop");
    assert!(r.usage.is_none());
    assert_eq!(r.provider_meta, Value::Bool(true));
}

#[test]
fn anthropic_failures_map_into_taxonomy() {
    assert_eq!(map_anthropic_failure("Unauthorized. Check your authorization key.".to_string()), AiError::Auth);
    assert_eq!(
        map_anthropic_failure("Unexpected status code: \"{\\\"type\\\":\\\"rate_limit_error\\\"}\"".to_string()),
        AiError::RateLimited
    );
    assert_eq!(map_anthropic_failure("rate_limit_error: slow down".to_string()), AiError::RateLimited);
    assert_eq!(
        map_anthropic_failure("Failed to send request".to_string()),
        AiError::Provider("Failed to send request".to_string())
    );
    assert_eq!(map_anthropic_failure("not Unauthorized".to_string()), AiError::Provider("not Unauthorized".to_string()));
}
