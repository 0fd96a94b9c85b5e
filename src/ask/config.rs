use vstd::prelude::*;

use crate::client::ProviderAPI;
use std::time::Duration;

verus! {

/// What `Duration::from_secs` builds from a number of seconds.
pub uninterp spec fn duration_from_secs(secs: u64) -> Duration;

/// Relies on `Duration::from_secs`: the duration depends on the seconds alone.
pub assume_specification[ Duration::from_secs ](secs: u64) -> (r: Duration)
    ensures
        r == duration_from_secs(secs),
;

/// Relies on `Duration`'s `Clone`, which copies the value.
pub assume_specification[ <Duration as Clone>::clone ](d: &Duration) -> (r: Duration)
    ensures
        r == *d,
;

/// Seconds a request may take when the caller sets no timeout.
pub const DEFAULT_TIMEOUT_SECS: u64 = 30;

/// Base URL of an OpenAI-compatible endpoint when none is given.
pub open spec fn openai_default_url() -> Seq<char> {
    "https://api.openai.com/v1"@
}

/// Base URL of the Anthropic endpoint when none is given.
pub open spec fn anthropic_default_url() -> Seq<char> {
    "https://api.anthropic.com/v1"@
}

/// The base URL used for `api` when none is given.
pub open spec fn default_url(api: ProviderAPI) -> Seq<char> {
    match api {
        ProviderAPI::OpenAI => openai_default_url(),
        ProviderAPI::Anthropic => anthropic_default_url(),
    }
}

/// Everything one adapter call needs to reach its provider.
#[derive(Clone, Debug)]
pub struct AskConfig {
    pub model: String,
    pub api: ProviderAPI,
    pub url: String,
    pub api_key: String,
    pub request_timeout: Duration,
}

impl AskConfig {
    /// A configuration; an absent URL or timeout takes the provider's default.
    pub fn new(
        model: String,
        api: ProviderAPI,
        api_key: String,
        url: Option<String>,
        request_timeout: Option<Duration>,
    ) -> (r: AskConfig)
        ensures
            r.model == model,
            r.api == api,
            r.api_key == api_key,
            r.url@ == match url {
                Some(u) => u@,
                None => default_url(api),
            },
            r.request_timeout == match request_timeout {
                Some(t) => t,
                None => duration_from_secs(DEFAULT_TIMEOUT_SECS),
            },
    {
        let url = match url {
            Some(u) => u,
            None => match api {
                ProviderAPI::OpenAI => String::from_str("https://api.openai.com/v1"),
                ProviderAPI::Anthropic => String::from_str("https://api.anthropic.com/v1"),
            },
        };
        let request_timeout = match request_timeout {
            Some(t) => t,
            None => Duration::from_secs(DEFAULT_TIMEOUT_SECS),
        };
        AskConfig { model, api, url, api_key, request_timeout }
    }

    /// OpenAI with its default model, URL and timeout.
    pub fn default_openai(api_key: String) -> (r: AskConfig)
        ensures
            r.model@ == "gpt-5-nano"@,
            r.api == ProviderAPI::OpenAI,
            r.api_key == api_key,
            r.url@ == openai_default_url(),
            r.request_timeout == duration_from_secs(DEFAULT_TIMEOUT_SECS),
    {
        AskConfig::new(String::from_str("gpt-5-nano"), ProviderAPI::OpenAI, api_key, None, None)
    }

    /// Anthropic with its default model, URL and timeout.
    pub fn default_anthropic(api_key: String) -> (r: AskConfig)
        ensures
            r.model@ == "sonnet"@,
            r.api == ProviderAPI::Anthropic,
            r.api_key == api_key,
            r.url@ == anthropic_default_url(),
            r.request_timeout == duration_from_secs(DEFAULT_TIMEOUT_SECS),
    {
        AskConfig::new(String::from_str("sonnet"), ProviderAPI::Anthropic, api_key, None, None)
    }
}

} // verus!
