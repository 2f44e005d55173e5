//! Role prompts: the template bundle loaded at startup and the rendering of
//! a shell prompt for a given OS and shell.
use vstd::prelude::*;
use crate::common::{capped, check_or_truncate_max_os_shell, Question};
use crate::text::{
    chars_of, contains, replace_all, replace_chars, same_text, string_of,
};

verus! {

/// The prompt templates: one for explanations, and the parts a shell prompt
/// is built from.
pub struct Prompts {
    pub explain: String,
    pub os_prompt: String,
    pub combinator_powershell: String,
    pub combinator_default: String,
    pub additional_instructions: String,
}

/// The template with `{os}` and then `{shell}` replaced.
pub open spec fn substituted(template: Seq<char>, os: Seq<char>, shell: Seq<char>) -> Seq<char> {
    replace_all(replace_all(template, "{os}"@, os), "{shell}"@, shell)
}

/// The combinator for a shell label: PowerShell's for exactly `powershell`,
/// the default one for every other label.
pub open spec fn combinator_for(p: Prompts, shell: Seq<char>) -> Seq<char> {
    if shell == "powershell"@ {
        p.combinator_powershell@
    } else {
        p.combinator_default@
    }
}

/// The shell prompt for `os` and `shell`: both labels are capped before they
/// are substituted, then come the combinator and the additional instructions,
/// one per line.
pub open spec fn shell_prompt_text(p: Prompts, os: Seq<char>, shell: Seq<char>) -> Seq<char> {
    substituted(p.os_prompt@, capped(os), capped(shell)) + "\n"@ + combinator_for(p, shell)
        + "\n"@ + p.additional_instructions@
}

/// The role prompt for a request: the explain template, or the shell prompt.
pub open spec fn role_prompt_text(p: Prompts, q: Question) -> Seq<char> {
    if q.explain {
        p.explain@
    } else {
        shell_prompt_text(p, q.os@, q.shell@)
    }
}

impl Prompts {
    pub fn new(
        explain: &str,
        os_prompt: &str,
        combinator_powershell: &str,
        combinator_default: &str,
        additional_instructions: &str,
    ) -> (r: Prompts)
        ensures
            r.explain@ == explain@,
            r.os_prompt@ == os_prompt@,
            r.combinator_powershell@ == combinator_powershell@,
            r.combinator_default@ == combinator_default@,
            r.additional_instructions@ == additional_instructions@,
    {
        Prompts {
            explain: String::from_str(explain),
            os_prompt: String::from_str(os_prompt),
            combinator_powershell: String::from_str(combinator_powershell),
            combinator_default: String::from_str(combinator_default),
            additional_instructions: String::from_str(additional_instructions),
        }
    }

    /// Renders the shell prompt for `os` and `shell`.
    pub fn shell_prompt(&self, os: &str, shell: &str) -> (r: String)
        ensures
            r@ == shell_prompt_text(*self, os@, shell@),
    {
        let os_label = check_or_truncate_max_os_shell(os);
        let shell_label = check_or_truncate_max_os_shell(shell);
        let template = chars_of(self.os_prompt.as_str());
        let with_os = replace_chars(&template, &chars_of("{os}"), &chars_of(os_label));
        let with_shell = replace_chars(&with_os, &chars_of("{shell}"), &chars_of(shell_label));
        assert(with_shell@.subrange(0, with_shell@.len() as int) =~= with_shell@);
        let mut out = string_of(&with_shell, 0, with_shell.len());
        out.append("\n");
        if same_text(shell, "powershell") {
            out.append(self.combinator_powershell.as_str());
        } else {
            out.append(self.combinator_default.as_str());
        }
        out.append("\n");
        out.append(self.additional_instructions.as_str());
        out
    }

    /// The role prompt for a request.
    pub fn role_prompt(&self, request: &Question) -> (r: String)
        ensures
            r@ == role_prompt_text(*self, *request),
    {
        if request.explain {
            self.explain.clone()
        } else {
            self.shell_prompt(request.os.as_str(), request.shell.as_str())
        }
    }
}

/// A shell prompt holds the combinator chosen for its shell label, between
/// the substituted template and the additional instructions: PowerShell's
/// for `powershell`, the default one for any other label.
pub proof fn lemma_shell_prompt_combinator(p: Prompts, os: Seq<char>, shell: Seq<char>)
    ensures
        shell == "powershell"@ ==> contains(
            shell_prompt_text(p, os, shell),
            p.combinator_powershell@,
        ),
        shell != "powershell"@ ==> contains(shell_prompt_text(p, os, shell), p.combinator_default@),
        ({
            let k = substituted(p.os_prompt@, capped(os), capped(shell)).len() + 1int;
            let c = combinator_for(p, shell);
            shell_prompt_text(p, os, shell).subrange(k, k + c.len() as int) == c
        }),
{
    let head = substituted(p.os_prompt@, capped(os), capped(shell)) + "\n"@;
    let c = combinator_for(p, shell);
    let t = shell_prompt_text(p, os, shell);
    assert(t =~= head + c + ("\n"@ + p.additional_instructions@));
    assert("\n"@.len() == 1) by {
        reveal_strlit("\n");
    }
    assert(t.subrange(head.len() as int, head.len() + c.len() as int) =~= c);
}

/// The combinator that was not chosen for `shell`.
pub open spec fn other_combinator(p: Prompts, shell: Seq<char>) -> Seq<char> {
    if shell == "powershell"@ {
        p.combinator_default@
    } else {
        p.combinator_powershell@
    }
}

/// A window of `n` characters from `i` covers one of the two line breaks
/// of a shell prompt whose substituted template has length `m` and whose
/// combinator has length `k`.
pub open spec fn crosses_line_break(i: int, n: int, m: int, k: int) -> bool {
    (i <= m < i + n) || (i <= m + 1 + k < i + n)
}

/// A shell prompt does not hold the combinator that was not chosen when that
/// combinator occurs neither in the substituted template, nor in the chosen
/// combinator, nor in the additional instructions, nor across one of the two
/// line breaks that join them.
pub proof fn lemma_other_combinator_absent(p: Prompts, os: Seq<char>, shell: Seq<char>)
    requires
        !contains(substituted(p.os_prompt@, capped(os), capped(shell)), other_combinator(p, shell)),
        !contains(combinator_for(p, shell), other_combinator(p, shell)),
        !contains(p.additional_instructions@, other_combinator(p, shell)),
        forall|i: int|
            0 <= i && i + other_combinator(p, shell).len() <= shell_prompt_text(p, os, shell).len()
                && crosses_line_break(
                i,
                other_combinator(p, shell).len() as int,
                substituted(p.os_prompt@, capped(os), capped(shell)).len() as int,
                combinator_for(p, shell).len() as int,
            ) ==> #[trigger] shell_prompt_text(p, os, shell).subrange(
                i,
                i + other_combinator(p, shell).len(),
            ) != other_combinator(p, shell),
    ensures
        !contains(shell_prompt_text(p, os, shell), other_combinator(p, shell)),
{
    let d = other_combinator(p, shell);
    let n = d.len() as int;
    let sub = substituted(p.os_prompt@, capped(os), capped(shell));
    let c = combinator_for(p, shell);
    let add = p.additional_instructions@;
    let t = shell_prompt_text(p, os, shell);
    reveal_strlit("\n");
    assert("\n"@ =~= seq!['\n']);
    assert(t =~= sub + "\n"@ + c + "\n"@ + add);
    let m = sub.len() as int;
    let k = c.len() as int;
    if contains(t, d) {
        let i = choose|i: int| 0 <= i && i + d.len() <= t.len() && #[trigger] t.subrange(i, i + d.len()) == d;
        if crosses_line_break(i, n, m, k) {
            assert(t.subrange(i, i + n) != d);
        } else if i + n <= m {
            assert(t.subrange(i, i + n) =~= sub.subrange(i, i + n));
            assert(contains(sub, d));
        } else if i + n <= m + 1 + k {
            assert(t.subrange(i, i + n) =~= c.subrange(i - m - 1, i - m - 1 + n));
            assert(contains(c, d));
        } else {
            assert(t.subrange(i, i + n) =~= add.subrange(i - m - 2 - k, i - m - 2 - k + n));
            assert(contains(add, d));
        }
    }
}

} // verus!
