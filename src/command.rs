//! The local command interpreter: which one to use, how a command is handed
//! to it, and what is recorded in the shell's history afterwards. The
//! environment is read by the caller and passed in as plain values.
use vstd::prelude::*;
use crate::text::{chars_of, contains, contains_chars, matches_at, same_text, string_of};

verus! {

/// A command interpreter: its name, the program to start, the flag that
/// precedes the command text, and the command that records history.
pub struct Shell {
    pub name: String,
    pub cmd: String,
    pub arg: String,
    pub history_cmd: Option<String>,
}

pub struct ShellView {
    pub name: Seq<char>,
    pub cmd: Seq<char>,
    pub arg: Seq<char>,
    pub history_cmd: Option<Seq<char>>,
}

impl View for Shell {
    type V = ShellView;

    open spec fn view(&self) -> ShellView {
        ShellView {
            name: self.name@,
            cmd: self.cmd@,
            arg: self.arg@,
            history_cmd: match self.history_cmd {
                Some(h) => Some(h@),
                None => None,
            },
        }
    }
}

pub open spec fn shell_view(
    name: Seq<char>,
    cmd: Seq<char>,
    arg: Seq<char>,
    history_cmd: Option<Seq<char>>,
) -> ShellView {
    ShellView { name, cmd, arg, history_cmd }
}

/// What `str::to_lowercase` returns for `s`.
pub uninterp spec fn lower_of(s: Seq<char>) -> Seq<char>;

/// Relies on `str::to_lowercase`: the lower-case form of the text, which
/// depends on the characters alone.
#[verifier::external_body]
fn lowercase(s: &str) -> (r: String)
    ensures
        r@ == lower_of(s@),
{
    s.to_lowercase()
}

/// How many times `c` occurs in `s`.
pub open spec fn count_char(s: Seq<char>, c: char) -> nat
    decreases s.len(),
{
    if s.len() == 0 {
        0
    } else {
        (if s.last() == c {
            1nat
        } else {
            0nat
        }) + count_char(s.drop_last(), c)
    }
}

/// The index of the last `c` in `s`, or -1.
pub open spec fn last_index_of(s: Seq<char>, c: char) -> int
    decreases s.len(),
{
    if s.len() == 0 {
        -1
    } else if s.last() == c {
        s.len() - 1
    } else {
        last_index_of(s.drop_last(), c)
    }
}

/// The last component of a path: what follows its last `/`.
pub open spec fn base_name(path: Seq<char>) -> Seq<char> {
    path.subrange(last_index_of(path, '/') + 1, path.len() as int)
}

/// The PowerShell that a lower-cased `PSModulePath` points to: one when it
/// lists at least three entries (version 7 when one of them is under
/// `powershell\7\`), none otherwise.
pub open spec fn module_path_shell(lowered: Seq<char>) -> Option<ShellView> {
    if count_char(lowered, ';') >= 2 {
        if contains(lowered, "powershell\\7\\"@) {
            Some(shell_view("pwsh"@, "pwsh.exe"@, "-c"@, None))
        } else {
            Some(shell_view("powershell"@, "powershell.exe"@, "-Command"@, None))
        }
    } else {
        None
    }
}

/// The interpreter for an OS, given the `PSModulePath` and `SHELL`
/// variables: on Windows PowerShell when the module path lists at least
/// three entries (version 7 when one of them is under `powershell\7\`), else
/// `cmd`; elsewhere the shell that `SHELL` names when it is bash, zsh, fish
/// or pwsh, else `sh`.
pub open spec fn detected_shell(
    os: Seq<char>,
    ps_module_path: Option<Seq<char>>,
    shell_var: Option<Seq<char>>,
) -> ShellView {
    if os == "windows"@ {
        match ps_module_path {
            Some(p) => match module_path_shell(lower_of(p)) {
                Some(sh) => sh,
                None => shell_view("cmd"@, "cmd.exe"@, "/C"@, None),
            },
            None => shell_view("cmd"@, "cmd.exe"@, "/C"@, None),
        }
    } else {
        let b = base_name(
            match shell_var {
                Some(v) => v,
                None => "/bin/sh"@,
            },
        );
        if b == "bash"@ {
            shell_view(b, b, "-c"@, Some("history -s"@))
        } else if b == "zsh"@ {
            shell_view(b, b, "-c"@, Some("print -s"@))
        } else if b == "fish"@ || b == "pwsh"@ {
            shell_view(b, b, "-c"@, None)
        } else {
            shell_view("sh"@, "sh"@, "-c"@, None)
        }
    }
}

/// The history command after running `eval_str`: only after success, and
/// only for shells that record history.
pub open spec fn history_entry_of(s: ShellView, eval_str: Seq<char>, succeeded: bool) -> Option<
    Seq<char>,
> {
    match s.history_cmd {
        Some(h) => if succeeded {
            Some(h + " \""@ + eval_str + "\""@)
        } else {
            None
        },
        None => None,
    }
}

fn count_of(v: &Vec<char>, c: char) -> (r: usize)
    ensures
        r == count_char(v@, c),
{
    let mut n: usize = 0;
    let mut i: usize = 0;
    while i < v.len()
        invariant
            i <= v.len(),
            n <= i,
            n == count_char(v@.take(i as int), c),
        decreases v.len() - i,
    {
        assert(v@.take(i + 1).drop_last() =~= v@.take(i as int));
        if v[i] == c {
            n = n + 1;
        }
        i = i + 1;
    }
    assert(v@.take(v@.len() as int) =~= v@);
    n
}

fn last_component(path: &str) -> (r: String)
    ensures
        r@ == base_name(path@),
{
    let v = chars_of(path);
    let mut j = v.len();
    assert(v@.take(v@.len() as int) =~= v@);
    while j > 0 && v[j - 1] != '/'
        invariant
            j <= v.len(),
            last_index_of(v@, '/') == last_index_of(v@.take(j as int), '/'),
        decreases j,
    {
        assert(v@.take(j as int).drop_last() =~= v@.take(j - 1));
        j = j - 1;
    }
    string_of(&v, j, v.len())
}

impl Shell {
    pub fn new(name: &str, cmd: &str, arg: &str, history_cmd: Option<&str>) -> (r: Shell)
        ensures
            r@ == shell_view(
                name@,
                cmd@,
                arg@,
                match history_cmd {
                    Some(h) => Some(h@),
                    None => None,
                },
            ),
    {
        Shell {
            name: String::from_str(name),
            cmd: String::from_str(cmd),
            arg: String::from_str(arg),
            history_cmd: match history_cmd {
                Some(h) => Some(String::from_str(h)),
                None => None,
            },
        }
    }

    /// The arguments the interpreter is started with to run `eval_str`.
    pub fn args(&self, eval_str: &str) -> (r: Vec<String>)
        ensures
            r@.len() == 2,
            r@[0]@ == self.arg@,
            r@[1]@ == eval_str@,
    {
        let mut r: Vec<String> = Vec::new();
        r.push(self.arg.clone());
        r.push(String::from_str(eval_str));
        r
    }

    /// The command that records `eval_str` in the shell's history, if any.
    pub fn history_entry(&self, eval_str: &str, succeeded: bool) -> (r: Option<String>)
        ensures
            match r {
                Some(t) => history_entry_of(self@, eval_str@, succeeded) == Some(t@),
                None => history_entry_of(self@, eval_str@, succeeded) is None,
            },
    {
        match &self.history_cmd {
            Some(h) => {
                if succeeded {
                    let mut t = h.clone();
                    t.append(" \"");
                    t.append(eval_str);
                    t.append("\"");
                    Some(t)
                } else {
                    None
                }
            },
            None => None,
        }
    }

    /// The exit code reported for a finished command; one without a code
    /// (ended by a signal) counts as a failure, with code 1.
    pub fn exit_code(code: Option<i32>) -> (r: i32)
        ensures
            r == (match code {
                Some(c) => c,
                None => 1,
            }),
            code is None ==> r != 0,
    {
        match code {
            Some(c) => c,
            None => 1,
        }
    }
}

/// The PowerShell that a lower-cased `PSModulePath` points to, if any.
pub fn shell_for_module_path(lowered: &str) -> (r: Option<Shell>)
    ensures
        match r {
            Some(sh) => module_path_shell(lowered@) == Some(sh@),
            None => module_path_shell(lowered@) is None,
        },
{
    let v = chars_of(lowered);
    if count_of(&v, ';') >= 2 {
        if contains_chars(&v, &chars_of("powershell\\7\\")) {
            Some(Shell::new("pwsh", "pwsh.exe", "-c", None))
        } else {
            Some(Shell::new("powershell", "powershell.exe", "-Command", None))
        }
    } else {
        None
    }
}

/// Picks the interpreter for `os` from the `PSModulePath` and `SHELL`
/// variables.
pub fn detect_shell(os: &str, ps_module_path: Option<&str>, shell_var: Option<&str>) -> (r: Shell)
    ensures
        r@ == detected_shell(
            os@,
            match ps_module_path {
                Some(p) => Some(p@),
                None => None,
            },
            match shell_var {
                Some(v) => Some(v@),
                None => None,
            },
        ),
{
    if same_text(os, "windows") {
        if let Some(p) = ps_module_path {
            if let Some(sh) = shell_for_module_path(lowercase(p).as_str()) {
                return sh;
            }
        }
        Shell::new("cmd", "cmd.exe", "/C", None)
    } else {
        let b = match shell_var {
            Some(v) => last_component(v),
            None => last_component("/bin/sh"),
        };
        let name = b.as_str();
        if same_text(name, "bash") {
            Shell::new(name, name, "-c", Some("history -s"))
        } else if same_text(name, "zsh") {
            Shell::new(name, name, "-c", Some("print -s"))
        } else if same_text(name, "fish") || same_text(name, "pwsh") {
            Shell::new(name, name, "-c", None)
        } else {
            Shell::new("sh", "sh", "-c", None)
        }
    }
}

/// The end of the line that starts at `i`: the index of the next newline,
/// or the length of `s`.
pub open spec fn line_end(s: Seq<char>, i: int) -> int
    decreases s.len() - i,
{
    if i < 0 || i >= s.len() {
        s.len() as int
    } else if s[i] == '\n' {
        i
    } else {
        line_end(s, i + 1)
    }
}

/// The line that starts at `i`, without its line break (a newline, or a
/// carriage return and a newline).
pub open spec fn line_at(s: Seq<char>, i: int) -> Seq<char> {
    let e = line_end(s, i);
    if e < s.len() && e > i && s[e - 1] == '\r' {
        s.subrange(i, e - 1)
    } else {
        s.subrange(i, e)
    }
}

/// `p` starts `s`.
pub open spec fn starts_with(s: Seq<char>, p: Seq<char>) -> bool {
    p.len() <= s.len() && s.take(p.len() as int) == p
}

/// The value of the first `ID=` line of an os-release file, from the line
/// that starts at `i` on.
pub open spec fn os_release_id(s: Seq<char>, i: int) -> Option<Seq<char>>
    decreases s.len() - i,
{
    if i < 0 || i >= s.len() {
        None
    } else if starts_with(line_at(s, i), "ID="@) {
        Some(line_at(s, i).skip("ID="@.len() as int))
    } else if i <= line_end(s, i) < s.len() {
        os_release_id(s, line_end(s, i) + 1)
    } else {
        None
    }
}

/// The OS label: on Linux the name followed by the distribution's id in
/// parentheses, when the os-release text has one; else the name alone.
pub open spec fn detected_os(os: Seq<char>, os_release: Option<Seq<char>>) -> Seq<char> {
    if os == "linux"@ {
        match os_release {
            Some(c) => match os_release_id(c, 0) {
                Some(id) => os + " ("@ + id + ")"@,
                None => os,
            },
            None => os,
        }
    } else {
        os
    }
}

proof fn lemma_line_end(s: Seq<char>, i: int)
    requires
        0 <= i <= s.len(),
    ensures
        i <= line_end(s, i) <= s.len(),
        line_end(s, i) < s.len() ==> s[line_end(s, i)] == '\n',
    decreases s.len() - i,
{
    if i < s.len() && s[i] != '\n' {
        lemma_line_end(s, i + 1);
    }
}

fn find_line_end(v: &Vec<char>, i: usize) -> (r: usize)
    requires
        i <= v.len(),
    ensures
        r == line_end(v@, i as int),
{
    let mut e = i;
    while e < v.len() && v[e] != '\n'
        invariant
            i <= e <= v.len(),
            line_end(v@, i as int) == line_end(v@, e as int),
        decreases v.len() - e,
    {
        e = e + 1;
    }
    e
}

fn release_id(v: &Vec<char>) -> (r: Option<String>)
    ensures
        match r {
            Some(t) => os_release_id(v@, 0) == Some(t@),
            None => os_release_id(v@, 0) is None,
        },
{
    let key = chars_of("ID=");
    let mut i: usize = 0;
    while i < v.len()
        invariant
            i <= v.len(),
            key@ == "ID="@,
            os_release_id(v@, 0) == os_release_id(v@, i as int),
        decreases v.len() - i,
    {
        let e = find_line_end(v, i);
        proof {
            lemma_line_end(v@, i as int);
        }
        let stop = if e < v.len() && e > i && v[e - 1] == '\r' {
            e - 1
        } else {
            e
        };
        let ghost line = v@.subrange(i as int, stop as int);
        assert(line == line_at(v@, i as int));
        if key.len() <= stop - i && matches_at(v, i, &key) {
            assert(line.take(key@.len() as int) =~= v@.subrange(i as int, i + key.len()));
            assert(line.skip(key@.len() as int) =~= v@.subrange(i + key.len(), stop as int));
            return Some(string_of(v, i + key.len(), stop));
        }
        proof {
            if key@.len() <= line.len() {
                assert(line.take(key@.len() as int) =~= v@.subrange(i as int, i + key.len()));
            }
        }
        if e >= v.len() {
            return None;
        }
        i = e + 1;
    }
    None
}

/// The OS label for the OS name `os` and the text of `/etc/os-release`.
pub fn detect_os(os: &str, os_release: Option<&str>) -> (r: String)
    ensures
        r@ == detected_os(
            os@,
            match os_release {
                Some(c) => Some(c@),
                None => None,
            },
        ),
{
    if !same_text(os, "linux") {
        return String::from_str(os);
    }
    match os_release {
        Some(c) => match release_id(&chars_of(c)) {
            Some(id) => {
                let mut out = String::from_str(os);
                out.append(" (");
                out.append(id.as_str());
                out.append(")");
                out
            },
            None => String::from_str(os),
        },
        None => String::from_str(os),
    }
}

} // verus!
