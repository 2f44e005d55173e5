//! The request and response exchanged between client and server, and the
//! limits and names they share.
use vstd::prelude::*;
use crate::json::{json_bool, json_string, push_json_bool, push_json_string};

verus! {

/// The longest OS or shell label, in characters, that goes into a prompt.
pub const MAX_OS_SHELL_LEN: usize = 20;

/// The request header that carries the shared secret.
pub const HEADER_API_KEY: &'static str = "api-key";

/// The secret used by client and server when none is configured.
pub const DEFAULT_API_KEY: &'static str = "shellchat";

/// A request for a shell command (`explain == false`) or for the
/// explanation of one (`explain == true`).
pub struct Question {
    pub os: String,
    pub shell: String,
    pub prompt: String,
    pub explain: bool,
}

/// The server's answer: exactly one of `result` and `error` is meaningful.
pub struct ShellResponse {
    pub result: String,
    pub error: String,
}

/// An error report with an optional status code.
pub struct Error {
    pub message: String,
    pub code: Option<u16>,
}

/// `s` cut to its first `MAX_OS_SHELL_LEN` characters.
pub open spec fn capped(s: Seq<char>) -> Seq<char> {
    if s.len() > MAX_OS_SHELL_LEN {
        s.take(MAX_OS_SHELL_LEN as int)
    } else {
        s
    }
}

/// The JSON text of a question.
pub open spec fn question_json(os: Seq<char>, shell: Seq<char>, prompt: Seq<char>, explain: bool) -> Seq<char> {
    "{\"os\":"@ + json_string(os) + ",\"shell\":"@ + json_string(shell) + ",\"prompt\":"@
        + json_string(prompt) + ",\"explain\":"@ + json_bool(explain) + "}"@
}

/// The JSON text of a response.
pub open spec fn response_json(result: Seq<char>, error: Seq<char>) -> Seq<char> {
    "{\"result\":"@ + json_string(result) + ",\"error\":"@ + json_string(error) + "}"@
}

/// Bounds an OS or shell label to `MAX_OS_SHELL_LEN` characters.
pub fn check_or_truncate_max_os_shell(value: &str) -> (r: &str)
    ensures
        r@ == capped(value@),
{
    if value.unicode_len() > MAX_OS_SHELL_LEN {
        value.substring_char(0, MAX_OS_SHELL_LEN)
    } else {
        value
    }
}

impl Question {
    pub fn new(os: &str, shell: &str, prompt: &str, explain: bool) -> (r: Question)
        ensures
            r.os@ == os@,
            r.shell@ == shell@,
            r.prompt@ == prompt@,
            r.explain == explain,
    {
        Question {
            os: String::from_str(os),
            shell: String::from_str(shell),
            prompt: String::from_str(prompt),
            explain,
        }
    }

    /// The JSON text sent on the wire.
    pub fn to_json(&self) -> (r: String)
        ensures
            r@ == question_json(self.os@, self.shell@, self.prompt@, self.explain),
    {
        let mut out = String::from_str("{\"os\":");
        push_json_string(&mut out, self.os.as_str());
        out.append(",\"shell\":");
        push_json_string(&mut out, self.shell.as_str());
        out.append(",\"prompt\":");
        push_json_string(&mut out, self.prompt.as_str());
        out.append(",\"explain\":");
        push_json_bool(&mut out, self.explain);
        out.append("}");
        out
    }
}

impl ShellResponse {
    /// A successful answer.
    pub fn success(result: String) -> (r: ShellResponse)
        ensures
            r.result@ == result@,
            r.error@ == Seq::<char>::empty(),
    {
        ShellResponse { result, error: String::new() }
    }

    /// A failed answer.
    pub fn failure(error: String) -> (r: ShellResponse)
        ensures
            r.result@ == Seq::<char>::empty(),
            r.error@ == error@,
    {
        ShellResponse { result: String::new(), error }
    }

    /// The JSON text sent on the wire.
    pub fn to_json(&self) -> (r: String)
        ensures
            r@ == response_json(self.result@, self.error@),
    {
        let mut out = String::from_str("{\"result\":");
        push_json_string(&mut out, self.result.as_str());
        out.append(",\"error\":");
        push_json_string(&mut out, self.error.as_str());
        out.append("}");
        out
    }
}

} // verus!
