//! Provider registry and the canonical request/response data model.
//!
//! A provider is one of a closed set of chat-completion backends; each is
//! bound to an endpoint URL and the name of the environment variable that
//! holds its credential. Nothing here touches the network or the
//! environment: callers hand values in and take values out.

use vstd::prelude::*;
use vstd::string::StringExecFns;
use crate::temp::Temp;
use crate::text::{concat2, concat3, u64_to_string, spec_dec_digits};

verus! {

/// A chat-completion backend.
#[derive(Debug, Clone, Copy, PartialEq, Eq, Structural)]
pub enum Provider {
    Openai,
    Fireworks,
}

impl Provider {
    /// The provider's canonical lower-case name.
    pub open spec fn spec_name(self) -> Seq<char> {
        match self {
            Provider::Openai => "openai"@,
            Provider::Fireworks => "fireworks"@,
        }
    }

    /// Returns the provider's canonical lower-case name.
    pub fn as_str(self) -> (r: &'static str)
        ensures
            r@ == self.spec_name(),
    {
        match self {
            Provider::Openai => "openai",
            Provider::Fireworks => "fireworks",
        }
    }
}

/// The chat-completions URL a provider is addressed under.
pub open spec fn spec_endpoint(provider: Provider) -> Seq<char> {
    match provider {
        Provider::Openai => "https://api.openai.com/v1/chat/completions"@,
        Provider::Fireworks => "https://api.fireworks.ai/inference/v1/chat/completions"@,
    }
}

/// Returns the chat-completions URL of a provider.
pub fn endpoint(provider: Provider) -> (r: &'static str)
    ensures
        r@ == spec_endpoint(provider),
{
    match provider {
        Provider::Openai => "https://api.openai.com/v1/chat/completions",
        Provider::Fireworks => "https://api.fireworks.ai/inference/v1/chat/completions",
    }
}

/// The environment variable that holds a provider's credential.
pub open spec fn spec_api_key_env(provider: Provider) -> Seq<char> {
    match provider {
        Provider::Openai => "OPENAI_API_KEY"@,
        Provider::Fireworks => "FIREWORKS_API_KEY"@,
    }
}

/// Returns the name of the environment variable that holds a provider's
/// credential. Only the name: the credential itself never enters the crate.
pub fn api_key_env(provider: Provider) -> (r: &'static str)
    ensures
        r@ == spec_api_key_env(provider),
{
    match provider {
        Provider::Openai => "OPENAI_API_KEY",
        Provider::Fireworks => "FIREWORKS_API_KEY",
    }
}

/// One canonical chat message: a role and its textual content.
#[derive(Debug, Clone)]
pub struct ChatMessage {
    pub role: String,
    pub content: String,
}

impl ChatMessage {
    /// Builds a system message.
    pub fn system(content: &str) -> (r: ChatMessage)
        ensures
            r.role@ == "system"@,
            r.content@ == content@,
    {
        ChatMessage { role: String::from_str("system"), content: String::from_str(content) }
    }

    /// Builds a user message.
    pub fn user(content: &str) -> (r: ChatMessage)
        ensures
            r.role@ == "user"@,
            r.content@ == content@,
    {
        ChatMessage { role: String::from_str("user"), content: String::from_str(content) }
    }
}

/// The per-request options a resolved configuration hands to a wire adapter.
#[derive(Debug, Clone, Copy)]
pub struct AskOptions {
    pub temperature: Option<Temp>,
    pub max_tokens: Option<u32>,
    pub timeout_secs: Option<u64>,
    pub retries: u32,
    pub retry_delay_ms: u64,
}

impl Default for AskOptions {
    /// No sampling overrides, no timeout, no retries, half a second of base
    /// backoff delay.
    fn default() -> (r: Self)
        ensures
            r.temperature is None,
            r.max_tokens is None,
            r.timeout_secs is None,
            r.retries == 0,
            r.retry_delay_ms == 500,
    {
        AskOptions {
            temperature: None,
            max_tokens: None,
            timeout_secs: None,
            retries: 0,
            retry_delay_ms: 500,
        }
    }
}

/// Token counts a provider may report alongside an answer.
#[derive(Debug, Clone)]
pub struct Usage {
    pub prompt_tokens: Option<u32>,
    pub completion_tokens: Option<u32>,
    pub total_tokens: Option<u32>,
}

/// The canonical result of one ask operation.
#[derive(Debug, Clone)]
pub struct AskResponse {
    pub content: String,
    pub usage: Option<Usage>,
}

/// Why an ask operation failed.
#[derive(Debug)]
pub enum ProviderError {
    /// The provider's credential environment variable is absent or empty.
    MissingApiKey { provider: Provider, key_env: String },
    /// The request could not be sent or its response not read or decoded.
    Request { provider: Provider, message: String },
    /// The provider answered with a non-success HTTP status.
    Api { provider: Provider, status: u16, body: String },
    /// The provider answered successfully but with no usable content.
    EmptyResponse { provider: Provider },
}

impl ProviderError {
    /// One human-readable line describing the failure.
    pub fn message(&self) -> (r: String)
        ensures
            match self {
                ProviderError::MissingApiKey { key_env, .. } => r@ == key_env@
                    + " is not set in the environment"@,
                ProviderError::Request { provider, message } => r@ == provider.spec_name()
                    + " request failed: "@ + message@,
                ProviderError::Api { provider, status, body } => r@ == provider.spec_name()
                    + " API error "@ + spec_dec_digits(*status as nat) + ": "@ + body@,
                ProviderError::EmptyResponse { provider } => r@ == provider.spec_name()
                    + " response did not contain message content"@,
            },
    {
        match self {
            ProviderError::MissingApiKey { key_env, .. } => concat2(
                key_env.as_str(),
                " is not set in the environment",
            ),
            ProviderError::Request { provider, message } => concat3(
                provider.as_str(),
                " request failed: ",
                message.as_str(),
            ),
            ProviderError::Api { provider, status, body } => {
                let digits = u64_to_string(*status as u64);
                let mut r = concat3(provider.as_str(), " API error ", digits.as_str());
                r.append(": ");
                r.append(body.as_str());
                proof {
                    assert(r@ =~= provider.spec_name() + " API error "@ + spec_dec_digits(
                        *status as nat,
                    ) + ": "@ + body@);
                }
                r
            },
            ProviderError::EmptyResponse { provider } => concat2(
                provider.as_str(),
                " response did not contain message content",
            ),
        }
    }
}

} // verus!
