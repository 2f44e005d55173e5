//! The server's request handling, split around the provider call: `begin`
//! checks the secret and picks the prompts, the caller runs the provider,
//! and `respond` turns its outcome into the answer sent back.
use vstd::prelude::*;
use crate::auth::{authorize_header, presented, KeyHeader};
use crate::common::{response_json, Question, ShellResponse, DEFAULT_API_KEY};
use crate::extract::{extract_block, extracted};
use crate::prompts::{role_prompt_text, Prompts};
use crate::providers::{provider_error_text, ProviderError};

verus! {

/// The body of the answer to a request with the wrong secret.
pub const UNAUTHORIZED_MESSAGE: &'static str =
    "Client version/build not compatible. Please use corresponding 'shc' client.";

/// The user prompt of the provider check made at startup.
pub const PROBE_MESSAGE: &'static str = "hi";

/// The server's command-line settings.
pub struct ServerCli {
    pub config: String,
    pub url: String,
    pub key: Option<String>,
    pub logs_dir: Option<String>,
}

impl ServerCli {
    /// The secret requests must present: the configured key or the default.
    pub fn api_key(&self) -> (r: String)
        ensures
            r@ == (match self.key {
                Some(k) => k@,
                None => DEFAULT_API_KEY@,
            }),
    {
        match &self.key {
            Some(k) => k.clone(),
            None => String::from_str(DEFAULT_API_KEY),
        }
    }
}

/// What the server does next with a request.
pub enum ChatStep {
    /// Answer with this status and body; no provider is called.
    Reject { status: u16, body: String },
    /// Call the provider with these prompts.
    Ask { role_prompt: String, user_prompt: String },
}

/// A status and a body to send back.
pub struct HttpReply {
    pub status: u16,
    pub body: String,
}

/// The text a successful provider call answers: an explanation as it came,
/// a command through the code-block extractor.
pub open spec fn answer_text(reply: Seq<char>, explain: bool) -> Seq<char> {
    if explain {
        reply
    } else {
        extracted(reply)
    }
}

/// The server's read-only state: the prompt templates and the secret.
pub struct ChatService {
    pub prompts: Prompts,
    pub secret: String,
}

impl ChatService {
    pub fn new(prompts: Prompts, secret: String) -> (r: ChatService)
        ensures
            r.prompts == prompts,
            r.secret@ == secret@,
    {
        ChatService { prompts, secret }
    }

    /// Checks the secret a request presents and, when it matches, gives the
    /// prompts to send to the provider.
    pub fn begin(&self, request: &Question, api_key: &KeyHeader) -> (r: ChatStep)
        ensures
            (r is Ask) == (presented(*api_key) == Some(self.secret@)),
            r matches ChatStep::Reject { status, body } ==> status == 401 && body@
                == UNAUTHORIZED_MESSAGE@,
            r matches ChatStep::Ask { role_prompt, user_prompt } ==> role_prompt@
                == role_prompt_text(self.prompts, *request) && user_prompt@ == request.prompt@,
    {
        if !authorize_header(api_key, self.secret.as_str()) {
            return ChatStep::Reject { status: 401, body: String::from_str(UNAUTHORIZED_MESSAGE) };
        }
        ChatStep::Ask {
            role_prompt: self.prompts.role_prompt(request),
            user_prompt: request.prompt.clone(),
        }
    }

    /// The answer for a request once the provider has replied: its text, or
    /// its failure reported in band.
    pub fn respond(request: &Question, reply: Result<String, ProviderError>) -> (r: ShellResponse)
        ensures
            match reply {
                Ok(t) => r.result@ == answer_text(t@, request.explain) && r.error@.len() == 0,
                Err(e) => r.result@.len() == 0 && r.error@ == provider_error_text(e),
            },
            !(r.result@.len() > 0 && r.error@.len() > 0),
    {
        match reply {
            Ok(t) => {
                if request.explain {
                    ShellResponse::success(t)
                } else {
                    ShellResponse::success(extract_block(t.as_str()))
                }
            },
            Err(e) => ShellResponse::failure(e.message()),
        }
    }

    /// The reply sent for a provider outcome: always a success status, with
    /// the response as JSON.
    pub fn reply(request: &Question, outcome: Result<String, ProviderError>) -> (r: HttpReply)
        ensures
            r.status == 200,
            match outcome {
                Ok(t) => r.body@ == response_json(answer_text(t@, request.explain), Seq::empty()),
                Err(e) => r.body@ == response_json(Seq::empty(), provider_error_text(e)),
            },
    {
        let response = ChatService::respond(request, outcome);
        HttpReply { status: 200, body: response.to_json() }
    }
}

/// The verdict on the provider check made at startup: the line to log, or
/// the reason the server must not start.
pub fn probe_outcome(reply: Result<String, ProviderError>) -> (r: Result<String, String>)
    ensures
        match reply {
            Ok(t) => r matches Ok(line) && line@ == PROBE_MESSAGE@ + ": "@ + t@,
            Err(e) => r matches Err(m) && m@ == "Provider is not responding: "@
                + provider_error_text(e),
        },
{
    match reply {
        Ok(t) => {
            let mut line = String::from_str(PROBE_MESSAGE);
            line.append(": ");
            line.append(t.as_str());
            Ok(line)
        },
        Err(e) => {
            let mut m = String::from_str("Provider is not responding: ");
            m.append(e.message().as_str());
            Err(m)
        },
    }
}

} // verus!
