use vstd::prelude::*;

use crate::error::LLMError;
use crate::text::push_text;

verus! {

#[verifier::external_type_specification]
#[verifier::external_body]
pub struct ExClient(reqwest::Client);

#[verifier::external_type_specification]
#[verifier::external_body]
pub struct ExReqwestError(reqwest::Error);

/// Relies on `reqwest::ClientBuilder::build` with the default settings: it
/// either gives a client or says why none could be built.
#[verifier::external_body]
fn build_client() -> (r: Result<reqwest::Client, reqwest::Error>) {
    reqwest::Client::builder().build()
}

/// Relies on `reqwest::Error`'s `Display`: a description of the error.
#[verifier::external_body]
fn error_text(e: &reqwest::Error) -> (r: String) {
    e.to_string()
}

/// The endpoint that every chat request is sent to.
pub const NANOGPT_API_URL: &'static str = "https://nano-gpt.com/api/v1/chat/completions";

/// The most output tokens that a request asks for.
pub const MAX_TOKENS: u32 = 4096;

/// What a provider is built from.
#[derive(Debug)]
pub struct LLMConfig {
    pub provider: String,
    pub model: String,
    pub api_key: String,
    pub base_url: Option<String>,
}

/// Who wrote a message.
#[derive(Debug)]
pub enum Role {
    System,
    User,
    Assistant,
}

impl Role {
    /// The name of the role on the wire.
    pub fn as_str(&self) -> (r: &'static str)
        ensures
            r@ == match *self {
                Role::System => "system"@,
                Role::User => "user"@,
                Role::Assistant => "assistant"@,
            },
    {
        match self {
            Role::System => "system",
            Role::User => "user",
            Role::Assistant => "assistant",
        }
    }
}

/// One message of a conversation.
#[derive(Debug)]
pub struct Message {
    pub role: Role,
    pub content: String,
}

/// The body of one chat request.
#[derive(Debug)]
pub struct ChatRequest {
    pub model: String,
    pub messages: Vec<Message>,
    pub stream: bool,
    pub max_tokens: u32,
}

/// A chat provider for the NanoGPT service.
#[derive(Debug)]
pub struct NanoGPTProvider {
    client: reqwest::Client,
    model: String,
    api_key: String,
}

/// What a provider holds besides its client: the model and the api key.
pub type ProviderView = (Seq<char>, Seq<char>);

impl View for NanoGPTProvider {
    type V = ProviderView;

    closed spec fn view(&self) -> ProviderView {
        (self.model@, self.api_key@)
    }
}

impl NanoGPTProvider {
    /// Builds a provider from `config` with a new HTTP client; a client that
    /// cannot be built is a configuration error.
    pub fn new(config: LLMConfig) -> (r: Result<Self, LLMError>)
        ensures
            match r {
                Ok(p) => p@ == (config.model@, config.api_key@),
                Err(e) => e is ConfigError,
            },
    {
        match build_client() {
            Ok(client) => Ok(Self::with_client(client, config)),
            Err(e) => Err(LLMError::ConfigError(error_text(&e))),
        }
    }

    /// Builds a provider from `config` around `client`.
    pub fn with_client(client: reqwest::Client, config: LLMConfig) -> (r: Self)
        ensures
            r@ == (config.model@, config.api_key@),
    {
        NanoGPTProvider { client, model: config.model, api_key: config.api_key }
    }

    /// The name of this provider.
    pub fn name(&self) -> (r: &'static str)
        ensures
            r@ == "nanogpt"@,
    {
        "nanogpt"
    }

    /// The model that this provider was built with.
    pub fn model(&self) -> (r: &str)
        ensures
            r@ == self@.0,
    {
        self.model.as_str()
    }

    /// The HTTP client that requests go through.
    pub fn client(&self) -> &reqwest::Client {
        &self.client
    }

    /// The value of the `authorization` header: the api key as a bearer credential.
    pub fn authorization(&self) -> (r: String)
        ensures
            r@ == "Bearer "@ + self@.1,
    {
        let mut s = "Bearer ".to_owned();
        push_text(&mut s, self.api_key.as_str());
        s
    }

    /// The request for one chat call: the system message, then the user
    /// message, for a streamed answer of at most `MAX_TOKENS` tokens.
    pub fn create_request(&self, system_message: &str, user_message: &str) -> (r: ChatRequest)
        ensures
            r.model@ == self@.0,
            r.messages@.len() == 2,
            r.messages@[0].role == Role::System,
            r.messages@[0].content@ == system_message@,
            r.messages@[1].role == Role::User,
            r.messages@[1].content@ == user_message@,
            r.stream,
            r.max_tokens == MAX_TOKENS,
    {
        let messages = vec![
            Message { role: Role::System, content: system_message.to_owned() },
            Message { role: Role::User, content: user_message.to_owned() },
        ];
        ChatRequest { model: self.model.clone(), messages, stream: true, max_tokens: MAX_TOKENS }
    }
}

/// The error for a response whose status is not success: the body of the
/// response where it could be read, else a fixed placeholder.
pub fn api_error(body: Option<String>) -> (r: LLMError)
    ensures
        match r {
            LLMError::ApiError(m) => m@ == "NanoGPT API error: "@ + match body {
                Some(b) => b@,
                None => "Unknown error"@,
            },
            _ => false,
        },
{
    let mut m = "NanoGPT API error: ".to_owned();
    match body {
        Some(b) => push_text(&mut m, b.as_str()),
        None => push_text(&mut m, "Unknown error"),
    }
    LLMError::ApiError(m)
}

} // verus!
