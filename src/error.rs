use vstd::prelude::*;

verus! {

/// The closed set of failures that every provider adapter maps its native
/// errors into.
#[derive(Debug, Clone, PartialEq, Eq)]
pub enum AiError {
    Auth,
    RateLimited,
    Timeout,
    Provider(String),
    Json(String),
    Http(String),
    UnknownModel(String),
    Unsupported,
}

/// What `message` renders for an error.
pub open spec fn error_message(e: AiError) -> Seq<char> {
    match e {
        AiError::Auth => "auth failed"@,
        AiError::RateLimited => "rate limited"@,
        AiError::Timeout => "timeout"@,
        AiError::Provider(d) => "provider error: "@ + d@,
        AiError::Json(d) => "json error: "@ + d@,
        AiError::Http(d) => "http error: "@ + d@,
        AiError::UnknownModel(d) => "unknown model: "@ + d@,
        AiError::Unsupported => "unsupported provider"@,
    }
}

impl AiError {
    /// Human-readable description of the error.
    pub fn message(&self) -> (r: String)
        ensures
            r@ == error_message(*self),
    {
        match self {
            AiError::Auth => String::from_str("auth failed"),
            AiError::RateLimited => String::from_str("rate limited"),
            AiError::Timeout => String::from_str("timeout"),
            AiError::Provider(d) => String::from_str("provider error: ").concat(d.as_str()),
            AiError::Json(d) => String::from_str("json error: ").concat(d.as_str()),
            AiError::Http(d) => String::from_str("http error: ").concat(d.as_str()),
            AiError::UnknownModel(d) => String::from_str("unknown model: ").concat(d.as_str()),
            AiError::Unsupported => String::from_str("unsupported provider"),
        }
    }
}

} // verus!
