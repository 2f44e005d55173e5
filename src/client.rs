//! The client side of the protocol: its settings, the request it sends and
//! how the server's reply is read.
use vstd::prelude::*;
use crate::common::{question_json, Question, ShellResponse, DEFAULT_API_KEY};
use crate::text::{trim, trimmed};

verus! {

/// Said when the server cannot be reached.
pub const SERVER_UNAVAILABLE_MESSAGE: &'static str =
    "Server not available. Please check the server status and try again.";

/// Stands for a reply body that could not be read.
pub const UNREADABLE_ANSWER: &'static str = "Failed to read the answer";

/// The words of a request, each trimmed, joined by single spaces.
pub open spec fn joined(words: Seq<String>) -> Seq<char>
    decreases words.len(),
{
    if words.len() == 0 {
        Seq::empty()
    } else if words.len() == 1 {
        trim(words[0]@)
    } else {
        joined(words.drop_last()) + " "@ + trim(words.last()@)
    }
}

/// Trims each word and joins them with single spaces.
pub fn join_trimmed(words: &Vec<String>) -> (r: String)
    ensures
        r@ == joined(words@),
{
    let mut out = String::new();
    let mut i: usize = 0;
    while i < words.len()
        invariant
            i <= words.len(),
            out@ == joined(words@.take(i as int)),
        decreases words.len() - i,
    {
        assert(words@.take(i + 1).drop_last() =~= words@.take(i as int));
        let w = trimmed(words[i].as_str());
        if i > 0 {
            out.append(" ");
        } else {
            assert(out@ =~= Seq::<char>::empty());
        }
        out.append(w.as_str());
        i = i + 1;
    }
    assert(words@.take(words@.len() as int) =~= words@);
    out
}

/// The client's command-line settings.
pub struct ClientCli {
    pub url: String,
    pub key: Option<String>,
    pub os: Option<String>,
    pub shell: Option<String>,
    pub explain: bool,
    pub text: Vec<String>,
}

/// The optional setting, or the fallback.
pub open spec fn or_else(v: Option<String>, fallback: Seq<char>) -> Seq<char> {
    match v {
        Some(s) => s@,
        None => fallback,
    }
}

fn value_or(v: &Option<String>, fallback: &str) -> (r: String)
    ensures
        r@ == or_else(*v, fallback@),
{
    match v {
        Some(s) => s.clone(),
        None => String::from_str(fallback),
    }
}

impl ClientCli {
    /// The request text: the words, trimmed and joined by spaces.
    pub fn text(&self) -> (r: String)
        ensures
            r@ == joined(self.text@),
    {
        join_trimmed(&self.text)
    }

    /// The client for these settings; the OS and shell given on the command
    /// line win over the detected ones, and the key defaults.
    pub fn chatter(&self, detected_os: &str, detected_shell: &str) -> (r: Chatter)
        ensures
            r.url@ == self.url@,
            r.api_key@ == or_else(self.key, DEFAULT_API_KEY@),
            r.os@ == or_else(self.os, detected_os@),
            r.shell@ == or_else(self.shell, detected_shell@),
    {
        Chatter {
            url: self.url.clone(),
            api_key: value_or(&self.key, DEFAULT_API_KEY),
            os: value_or(&self.os, detected_os),
            shell: value_or(&self.shell, detected_shell),
        }
    }
}

/// Where and as whom the client asks, and for which OS and shell.
pub struct Chatter {
    pub url: String,
    pub api_key: String,
    pub os: String,
    pub shell: String,
}

/// What came back from a request to the server.
pub enum ServerReply {
    /// The connection failed or timed out.
    Unreachable,
    /// The request failed otherwise; holds the transport's message.
    Failed(String),
    /// The server answered: status code and line, the body if it could be
    /// read, and the response if the body decoded as one.
    Answered {
        status: u16,
        status_text: String,
        body: Option<String>,
        response: Option<ShellResponse>,
    },
}

/// The text the client takes from a reply, or the error it reports.
pub open spec fn answer_of(reply: ServerReply) -> Result<Seq<char>, Seq<char>> {
    match reply {
        ServerReply::Unreachable => Err(SERVER_UNAVAILABLE_MESSAGE@),
        ServerReply::Failed(m) => Err("Request to the server failed: "@ + m@),
        ServerReply::Answered { status, status_text, body, response } => {
            let text = or_else(body, UNREADABLE_ANSWER@);
            if 200 <= status && status < 300 {
                match response {
                    Some(r) => if r.error@.len() > 0 {
                        Err(r.error@)
                    } else {
                        Ok(r.result@)
                    },
                    None => Err("Unexpected answer from the server: "@ + text),
                }
            } else {
                Err(status_text@ + ": "@ + text)
            }
        },
    }
}

/// A text result as its view.
pub open spec fn result_view(r: Result<String, String>) -> Result<Seq<char>, Seq<char>> {
    match r {
        Ok(t) => Ok(t@),
        Err(m) => Err(m@),
    }
}

impl Chatter {
    pub fn new(url: &str, api_key: &str, os: &str, shell: &str) -> (r: Chatter)
        ensures
            r.url@ == url@,
            r.api_key@ == api_key@,
            r.os@ == os@,
            r.shell@ == shell@,
    {
        Chatter {
            url: String::from_str(url),
            api_key: String::from_str(api_key),
            os: String::from_str(os),
            shell: String::from_str(shell),
        }
    }

    /// The request for `prompt`, with this client's OS and shell.
    pub fn build_request(&self, prompt: &str, explain: bool) -> (r: Question)
        ensures
            r.os@ == self.os@,
            r.shell@ == self.shell@,
            r.prompt@ == prompt@,
            r.explain == explain,
    {
        Question {
            os: self.os.clone(),
            shell: self.shell.clone(),
            prompt: String::from_str(prompt),
            explain,
        }
    }

    /// The JSON body of the request for `prompt`.
    pub fn request_body(&self, prompt: &str, explain: bool) -> (r: String)
        ensures
            r@ == question_json(self.os@, self.shell@, prompt@, explain),
    {
        self.build_request(prompt, explain).to_json()
    }

    /// Reads the server's reply.
    pub fn read_answer(reply: ServerReply) -> (r: Result<String, String>)
        ensures
            result_view(r) == answer_of(reply),
    {
        match reply {
            ServerReply::Unreachable => Err(String::from_str(SERVER_UNAVAILABLE_MESSAGE)),
            ServerReply::Failed(m) => {
                let mut out = String::from_str("Request to the server failed: ");
                out.append(m.as_str());
                Err(out)
            },
            ServerReply::Answered { status, status_text, body, response } => {
                let text = value_or(&body, UNREADABLE_ANSWER);
                if 200 <= status && status < 300 {
                    match response {
                        Some(r) => {
                            if r.error.as_str().unicode_len() > 0 {
                                Err(r.error)
                            } else {
                                Ok(r.result)
                            }
                        },
                        None => {
                            let mut out = String::from_str("Unexpected answer from the server: ");
                            out.append(text.as_str());
                            Err(out)
                        },
                    }
                } else {
                    let mut out = status_text;
                    out.append(": ");
                    out.append(text.as_str());
                    Err(out)
                }
            },
        }
    }
}

} // verus!
