//! The language-model providers: their configuration, the selection of a
//! backend at startup, the chat-completion request a backend is sent, and
//! how its reply becomes generated text or a typed failure.
use vstd::prelude::*;
use crate::json::{json_string, push_json_string};

verus! {

/// Why a provider call produced no text.
pub enum ProviderError {
    /// The request could not be carried out (network, transport).
    RequestError(String),
    /// The reply body is not valid JSON.
    ParseError(String),
    /// The reply is JSON but holds no completion; keeps the raw body.
    UnexpectedResponse(String),
}

/// The message reported for a provider failure.
pub open spec fn provider_error_text(e: ProviderError) -> Seq<char> {
    match e {
        ProviderError::RequestError(m) => "HTTP Request Error: "@ + m@,
        ProviderError::ParseError(m) => "JSON Parsing Error: "@ + m@,
        ProviderError::UnexpectedResponse(_) => "Unexpected Response Structure"@,
    }
}

impl ProviderError {
    pub fn message(&self) -> (r: String)
        ensures
            r@ == provider_error_text(*self),
    {
        match self {
            ProviderError::RequestError(m) => {
                let mut out = String::from_str("HTTP Request Error: ");
                out.append(m.as_str());
                out
            },
            ProviderError::ParseError(m) => {
                let mut out = String::from_str("JSON Parsing Error: ");
                out.append(m.as_str());
                out
            },
            ProviderError::UnexpectedResponse(_) => String::from_str(
                "Unexpected Response Structure",
            ),
        }
    }
}

/// The backend a server talks to, chosen once at startup.
pub enum ProviderConfig {
    OpenAI { api_key: String, api_url: String, model: String },
    AzureOpenAI { api_key: String, api_url: String, model: String },
    Ollama { api_key: String, api_url: String, model: String },
}

/// A configuration that names a backend this library cannot talk to.
pub enum ConfigError {
    UnsupportedProvider(String),
}

impl ConfigError {
    pub fn message(&self) -> (r: String)
        ensures
            r@ == (match *self {
                ConfigError::UnsupportedProvider(k) => "the provider not implemented yet: "@ + k@,
            }),
    {
        match self {
            ConfigError::UnsupportedProvider(k) => {
                let mut out = String::from_str("the provider not implemented yet: ");
                out.append(k.as_str());
                out
            },
        }
    }
}

/// An Azure OpenAI deployment: where to post and with which key and model.
pub struct AzureOpenAI {
    pub model: String,
    pub api_key: String,
    pub url_full: String,
}

/// The chat-completions endpoint of an Azure deployment.
pub open spec fn deployment_url(base: Seq<char>, model: Seq<char>) -> Seq<char> {
    base + "/openai/deployments/"@ + model + "/chat/completions?api-version=2024-02-01"@
}

/// The chat-completion request: a system message with the role prompt and
/// a user message with the user prompt.
pub open spec fn chat_request_json(model: Seq<char>, role: Seq<char>, user: Seq<char>) -> Seq<char> {
    "{\"model\":"@ + json_string(model) + ",\"messages\":[{\"role\":\"system\",\"content\":"@
        + json_string(role) + "},{\"role\":\"user\",\"content\":"@ + json_string(user) + "}]}"@
}

/// Selects the backend for a configuration: Azure OpenAI is served, every
/// other kind is a configuration error named after the kind.
pub fn new_provider(config: &ProviderConfig) -> (r: Result<AzureOpenAI, ConfigError>)
    ensures
        match *config {
            ProviderConfig::AzureOpenAI { api_key, api_url, model } => r matches Ok(p) && p.model@
                == model@ && p.api_key@ == api_key@ && p.url_full@ == deployment_url(
                api_url@,
                model@,
            ),
            ProviderConfig::OpenAI { .. } => r matches Err(ConfigError::UnsupportedProvider(k))
                && k@ == "OpenAI"@,
            ProviderConfig::Ollama { .. } => r matches Err(ConfigError::UnsupportedProvider(k))
                && k@ == "Ollama"@,
        },
{
    match config {
        ProviderConfig::AzureOpenAI { api_key, api_url, model } => {
            let mut url = api_url.clone();
            url.append("/openai/deployments/");
            url.append(model.as_str());
            url.append("/chat/completions?api-version=2024-02-01");
            Ok(AzureOpenAI { model: model.clone(), api_key: api_key.clone(), url_full: url })
        },
        ProviderConfig::OpenAI { .. } => Err(
            ConfigError::UnsupportedProvider(String::from_str("OpenAI")),
        ),
        ProviderConfig::Ollama { .. } => Err(
            ConfigError::UnsupportedProvider(String::from_str("Ollama")),
        ),
    }
}

/// The part of a completion reply that is read: its choices.
pub struct CompletionResponse {
    pub choices: Vec<Choice>,
}

pub struct Choice {
    pub message: Message,
}

pub struct Message {
    pub content: String,
}

/// A reply body as decoded by the caller.
pub enum ParsedBody {
    /// Not JSON; holds the decoder's message.
    NotJson(String),
    /// JSON without the shape of a completion.
    OtherShape,
    /// A completion.
    Completion(CompletionResponse),
}

/// What came back from a provider request.
pub enum ProviderReply {
    /// The request failed; holds the transport's message.
    Failed(String),
    /// A body arrived: its raw text and how it decoded.
    Received { raw: String, parsed: ParsedBody },
}

/// The content of the first choice, if there is one.
pub fn first_content(resp: &CompletionResponse) -> (r: Option<String>)
    ensures
        resp.choices.len() > 0 ==> (r matches Some(t) && t@ == resp.choices@[0].message.content@),
        resp.choices.len() == 0 ==> r is None,
{
    if resp.choices.len() > 0 {
        Some(resp.choices[0].message.content.clone())
    } else {
        None
    }
}

impl AzureOpenAI {
    /// The JSON body posted to the deployment.
    pub fn request_body(&self, role_prompt: &str, user_prompt: &str) -> (r: String)
        ensures
            r@ == chat_request_json(self.model@, role_prompt@, user_prompt@),
    {
        let mut out = String::from_str("{\"model\":");
        push_json_string(&mut out, self.model.as_str());
        out.append(",\"messages\":[{\"role\":\"system\",\"content\":");
        push_json_string(&mut out, role_prompt);
        out.append("},{\"role\":\"user\",\"content\":");
        push_json_string(&mut out, user_prompt);
        out.append("}]}");
        out
    }

    /// The generated text of a reply, or why there is none.
    pub fn read_reply(reply: ProviderReply) -> (r: Result<String, ProviderError>)
        ensures
            match reply {
                ProviderReply::Failed(m) => r matches Err(ProviderError::RequestError(e)) && e@
                    == m@,
                ProviderReply::Received { raw, parsed } => match parsed {
                    ParsedBody::NotJson(m) => r matches Err(ProviderError::ParseError(e)) && e@
                        == m@,
                    ParsedBody::OtherShape => r matches Err(ProviderError::UnexpectedResponse(b))
                        && b@ == raw@,
                    ParsedBody::Completion(c) => if c.choices.len() > 0 {
                        r matches Ok(t) && t@ == c.choices@[0].message.content@
                    } else {
                        r matches Err(ProviderError::UnexpectedResponse(b)) && b@ == raw@
                    },
                },
            },
    {
        match reply {
            ProviderReply::Failed(m) => Err(ProviderError::RequestError(m)),
            ProviderReply::Received { raw, parsed } => match parsed {
                ParsedBody::NotJson(m) => Err(ProviderError::ParseError(m)),
                ParsedBody::OtherShape => Err(ProviderError::UnexpectedResponse(raw)),
                ParsedBody::Completion(c) => match first_content(&c) {
                    Some(t) => Ok(t),
                    None => Err(ProviderError::UnexpectedResponse(raw)),
                },
            },
        }
    }
}

} // verus!
