//! Configuration, and the decisions around the AI provider: whether a remote
//! model is asked, and the replies given without one.
use vstd::prelude::*;
use crate::text::{concat2, same_text};

verus! {

/// Settings of the service.
#[derive(Debug)]
pub struct AppConfig {
    pub host: String,
    pub port: u16,
    pub database_path: String,
    pub data_dir: String,
    pub ai_provider: String,
    pub openrouter_api_key: Option<String>,
    pub openrouter_model: String,
    pub openrouter_base_url: String,
    pub openrouter_referer: Option<String>,
}

/// Study suggestions with their priority.
#[derive(Debug)]
pub struct AiSuggestResponse {
    pub suggestions: Vec<String>,
    pub priority: String,
}

/// A text without its leading and trailing whitespace.
pub uninterp spec fn trimmed(s: Seq<char>) -> Seq<char>;

/// Relies on `str::trim`: the text without leading and trailing white space.
#[verifier::external_body]
fn trim(s: &str) -> (r: &str)
    ensures
        r@ == trimmed(s@),
{
    s.trim()
}

/// Whether a remote model is asked: the provider is `openai`, and both an API
/// key and a model name are given that are not blank.
pub open spec fn uses_remote_model(config: AppConfig) -> bool {
    &&& config.ai_provider@ == "openai"@
    &&& config.openrouter_api_key matches Some(k) && trimmed(k@).len() > 0
    &&& trimmed(config.openrouter_model@).len() > 0
}

/// Replies of the study assistant.
pub struct AiService;

impl AiService {
    /// Whether a chat asks the remote model (else the local reply is given).
    pub fn uses_remote(config: &AppConfig) -> (r: bool)
        ensures
            r == uses_remote_model(*config),
    {
        if !same_text(config.ai_provider.as_str(), "openai") {
            return false;
        }
        let key_ok = match &config.openrouter_api_key {
            Some(k) => trim(k.as_str()).unicode_len() > 0,
            None => false,
        };
        key_ok && trim(config.openrouter_model.as_str()).unicode_len() > 0
    }

    /// The reply to a chat message when no remote model answers.
    pub fn local_reply(message: &str) -> (r: String)
        ensures
            r@ == "Based on your message: "@ + message@,
    {
        concat2("Based on your message: ", message)
    }

    /// The reply of a remote model whose answer holds no text.
    pub fn empty_remote_reply() -> (r: String)
        ensures
            r@ == "I can help you with your study plan."@,
    {
        String::from_str("I can help you with your study plan.")
    }

    /// Study suggestions.
    pub fn suggest() -> (r: AiSuggestResponse)
        ensures
            r.suggestions@.len() == 2,
            r.suggestions@[0]@ == "Consider a short break."@,
            r.suggestions@[1]@ == "Review key concepts."@,
            r.priority@ == "low"@,
    {
        AiSuggestResponse {
            suggestions: vec![
                String::from_str("Consider a short break."),
                String::from_str("Review key concepts."),
            ],
            priority: String::from_str("low"),
        }
    }
}

} // verus!
