use cnctd_ai::ask::msg::{Msg, Role};
use cnctd_ai::ask::request::{AskOptions, AskRequest, Temperature};
use cnctd_ai::client::{ProviderAPI, WireMessage};
use cnctd_ai::config::AiConfig;
use cnctd_ai::error::AiError;
use cnctd_ai::facade::{CnctdAi, StructuredAction, StructuredCall, StructuredPhase};
use cnctd_ai::types::ProviderId;
use std::time::Duration;

fn msg(role: Role, content: &str) -> Msg {
    Msg { role, content: content.to_string(), name: None }
}

fn request(provider: ProviderId) -> AskRequest {
    AskRequest {
        provider,
        model: None,
        system: Some("be terse".to_string()),
        messages: vec![msg(Role::User, "2+2?")],
        options: AskOptions::default(),
        context_refs: vec!["conv-1".to_string()],
    }
}

fn config(openai_key: Option<&str>, anthropic_key: Option<&str>) -> AiConfig {
    AiConfig {
        default_provider: ProviderId::OpenAI,
        default_model: "gpt-4.1-mini".to_string(),
        openai_api_key: openai_key.map(|k| k.to_string()),
        openai_base_url: "https://api.openai.com/v1".to_string(),
        anthropic_api_key: anthropic_key.map(|k| k.to_string()),
        anthropic_base_url: "https://api.anthropic.com/v1".to_string(),
        request_timeout: Duration::from_secs(30),
    }
}

#[test]
fn hydrate_fills_defaults() {
    let r = CnctdAi::hydrate(request(ProviderId::OpenAI), &config(None, None));
    assert_eq!(r.model, Some("gpt-4.1-mini".to_string()));
    assert_eq!(r.options.temperature, Some(Temperature { milli: 200 }));
    assert_eq!(r.options.max_output_tokens, Some(512));
    assert_eq!(r.options.stream, Some(false));
    assert_eq!(r.options.json_mode, None);
    assert_eq!(r.context_refs, vec!["conv-1".to_string()]);
    assert_eq!(r.system, Some("be terse".to_string()));
}

#[test]
fn hydrate_keeps_fully_specified_request() {
    let mut req = request(ProviderId::Anthropic);
    req.model = Some("sonnet".to_string());
    req.options = AskOptions {
        temperature: Some(Temperature { milli: 900 }),
        max_output_tokens: Some(77),
        json_mode: Some(false),
        stream: Some(true),
    };
    let once = CnctdAi::hydrate(req.clone(), &config(None, None));
    assert_eq!(once, req);
    let twice = CnctdAi::hydrate(once.clone(), &config(None, None));
    assert_eq!(twice, once);
}

#[test]
fn hydrate_twice_equals_once() {
    let once = CnctdAi::hydrate(request(ProviderId::OpenAI), &config(None, None));
    let twice = CnctdAi::hydrate(once.clone(), &config(None, None));
    assert_eq!(once, twice);
}

#[test]
fn missing_key_fails_with_auth() {
    let r = CnctdAi::prepare(&config(None, Some("ka")), request(ProviderId::OpenAI));
    assert!(matches!(r, Err(AiError::Auth)));
    let r = CnctdAi::prepare(&config(None, Some("ka")), request(ProviderId::OpenRouter));
    assert!(matches!(r, Err(AiError::Auth)));
    let r = CnctdAi::prepare(&config(Some("ko"), None), request(ProviderId::Anthropic));
    assert!(matches!(r, Err(AiError::Auth)));
}

#[test]
fn prepare_routes_by_provider() {
    let call = CnctdAi::prepare(&config(Some("ko"), Some("ka")), request(ProviderId::Anthropic)).unwrap();
    assert_eq!(call.config.api, ProviderAPI::Anthropic);
    assert_eq!(call.config.api_key, "ka");
    assert_eq!(call.config.url, "https://api.anthropic.com/v1");
    assert_eq!(call.config.model, "gpt-4.1-mini");
    assert_eq!(call.request.system, Some("be terse".to_string()));
    assert_eq!(call.request.max_tokens, 512);
    assert!(!call.stream);

    let call = CnctdAi::prepare(&config(Some("ko"), Some("ka")), request(ProviderId::OpenRouter)).unwrap();
    assert_eq!(call.config.api, ProviderAPI::OpenAI);
    assert_eq!(call.config.api_key, "ko");
    assert_eq!(call.request.system, None);
    assert_eq!(call.request.messages.len(), 2);
    assert_eq!(call.request.temperature, Some(Temperature { milli: 200 }));
}

#[test]
fn structured_request_forces_determinism() {
    let r = CnctdAi::structured_request(request(ProviderId::OpenAI));
    assert_eq!(r.options.json_mode, Some(true));
    assert_eq!(r.options.temperature, Some(Temperature { milli: 0 }));
    assert_eq!(r.options.max_output_tokens, Some(512));
    let mut given = request(ProviderId::OpenAI);
    given.options.temperature = Some(Temperature { milli: 700 });
    given.options.json_mode = Some(false);
    let r = CnctdAi::structured_request(given);
    assert_eq!(r.options.temperature, Some(Temperature { milli: 700 }));
    assert_eq!(r.options.json_mode, Some(false));
}

#[test]
fn repair_appends_one_user_message() {
    let r = CnctdAi::repair_request(request(ProviderId::OpenAI));
    assert_eq!(r.messages.len(), 2);
    assert_eq!(r.messages[0], msg(Role::User, "2+2?"));
    assert_eq!(
        r.messages[1],
        msg(Role::User, "Your previous output was not valid JSON. Re-emit only valid minified JSON. No prose.")
    );
    assert_eq!(r.context_refs, vec!["conv-1".to_string()]);
}

#[test]
fn structured_repair_succeeds_on_second_answer() {
    let mut asks = 0;
    let (mut call, first) = StructuredCall::start(request(ProviderId::OpenAI));
    asks += 1;
    assert_eq!(first.options.json_mode, Some(true));
    let next = call.on_reply::<i32>(Err("expected value".to_string()));
    let second = match next {
        StructuredAction::Ask(q) => q,
        _ => panic!("a repair request was expected"),
    };
    asks += 1;
    assert_eq!(second.messages.len(), 2);
    assert_eq!(call.phase, StructuredPhase::Repair);
    match call.on_reply::<i32>(Ok(4)) {
        StructuredAction::Accept(v) => assert_eq!(v, 4),
        _ => panic!("the answer should be accepted"),
    }
    assert_eq!(call.phase, StructuredPhase::Done);
    assert_eq!(asks, 2);
}

#[test]
fn structured_repair_fails_after_two_answers() {
    let mut asks = 1;
    let (mut call, _first) = StructuredCall::start(request(ProviderId::OpenAI));
    if let StructuredAction::Ask(_) = call.on_reply::<i32>(Err("first".to_string())) {
        asks += 1;
    }
    match call.on_reply::<i32>(Err("trailing characters".to_string())) {
        StructuredAction::Reject(e) => assert_eq!(e, AiError::Json("trailing characters".to_string())),
        _ => panic!("the call should fail"),
    }
    assert_eq!(call.phase, StructuredPhase::Done);
    assert_eq!(asks, 2);
}

#[test]
fn structured_first_answer_accepted() {
    let (mut call, _first) = StructuredCall::start(request(ProviderId::Anthropic));
    match call.on_reply::<&str>(Ok("ok")) {
        StructuredAction::Accept(v) => assert_eq!(v, "ok"),
        _ => panic!("the answer should be accepted"),
    }
    assert_eq!(call.phase, StructuredPhase::Done);
}

#[test]
fn latency_rounds_up_to_milliseconds() {
    assert_eq!(CnctdAi::latency_ms(0), 0);
    assert_eq!(CnctdAi::latency_ms(1), 1);
    assert_eq!(CnctdAi::latency_ms(1_000_000), 1);
    assert_eq!(CnctdAi::latency_ms(1_000_001), 2);
    assert_eq!(CnctdAi::latency_ms(u128::MAX), u128::MAX / 1_000_000 + 1);
}

#[test]
fn wire_message_shape() {
    let w = WireMessage { role: Role::Tool, content: "42".to_string(), tool_call_id: Some("c1".to_string()) };
    assert_eq!(w.clone(), w);
}
