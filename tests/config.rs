use cnctd_ai::ask::config::AskConfig;
use cnctd_ai::client::{user_agent, AiClient, ProviderAPI};
use cnctd_ai::error::AiError;
use cnctd_ai::types::ProviderId;
use std::time::Duration;

#[test]
fn ask_config_defaults_per_provider() {
    let c = AskConfig::new("m".to_string(), ProviderAPI::OpenAI, "k".to_string(), None, None);
    assert_eq!(c.url, "https://api.openai.com/v1");
    assert_eq!(c.request_timeout, Duration::from_secs(30));
    assert_eq!(c.model, "m");
    assert_eq!(c.api_key, "k");
    let a = AskConfig::new("m".to_string(), ProviderAPI::Anthropic, "k".to_string(), None, None);
    assert_eq!(a.url, "https://api.anthropic.com/v1");
}

#[test]
fn ask_config_keeps_given_values() {
    let c = AskConfig::new(
        "m".to_string(),
        ProviderAPI::Anthropic,
        "k".to_string(),
        Some("http://localhost:9".to_string()),
        Some(Duration::from_secs(5)),
    );
    assert_eq!(c.url, "http://localhost:9");
    assert_eq!(c.request_timeout, Duration::from_secs(5));
    assert_eq!(c.api, ProviderAPI::Anthropic);
}

#[test]
fn default_configs() {
    let o = AskConfig::default_openai("ko".to_string());
    assert_eq!(o.model, "gpt-5-nano");
    assert_eq!(o.api, ProviderAPI::OpenAI);
    assert_eq!(o.api_key, "ko");
    assert_eq!(o.url, "https://api.openai.com/v1");
    let a = AskConfig::default_anthropic("ka".to_string());
    assert_eq!(a.model, "sonnet");
    assert_eq!(a.api, ProviderAPI::Anthropic);
    assert_eq!(a.request_timeout, Duration::from_secs(30));
}

#[test]
fn provider_api_names() {
    assert_eq!(ProviderAPI::OpenAI.to_string(), "OpenAI");
    assert_eq!(ProviderAPI::Anthropic.to_string(), "Anthropic");
    assert_eq!(user_agent(ProviderAPI::OpenAI), "cnctd-ai-openai-api");
    assert_eq!(user_agent(ProviderAPI::Anthropic), "cnctd-ai-anthropic-api");
}

#[test]
fn provider_tags() {
    assert_eq!(ProviderId::from_tag("openai"), Ok(ProviderId::OpenAI));
    assert_eq!(ProviderId::from_tag("openrouter"), Ok(ProviderId::OpenRouter));
    assert_eq!(ProviderId::from_tag("anthropic"), Ok(ProviderId::Anthropic));
    assert_eq!(ProviderId::from_tag("gemini"), Err(AiError::Unsupported));
    assert_eq!(ProviderId::from_tag(""), Err(AiError::Unsupported));
    assert_eq!(ProviderId::from_tag("OpenAI"), Err(AiError::Unsupported));
}

#[test]
fn error_messages() {
    assert_eq!(AiError::Auth.message(), "auth failed");
    assert_eq!(AiError::RateLimited.message(), "rate limited");
    assert_eq!(AiError::Timeout.message(), "timeout");
    assert_eq!(AiError::Provider("x".to_string()).message(), "provider error: x");
    assert_eq!(AiError::Json("bad".to_string()).message(), "json error: bad");
    assert_eq!(AiError::Http("503".to_string()).message(), "http error: 503");
    assert_eq!(AiError::UnknownModel("m".to_string()).message(), "unknown model: m");
    assert_eq!(AiError::Unsupported.message(), "unsupported provider");
}

#[test]
fn ai_client_holds_its_settings() {
    let c = AiClient::new("https://x".to_string(), "key".to_string(), "model".to_string());
    assert_eq!(c.base_url(), "https://x");
    assert_eq!(c.api_key(), "key");
    assert_eq!(c.default_model(), "model");
}
