use shellchat::common::{check_or_truncate_max_os_shell, Question, MAX_OS_SHELL_LEN};
use shellchat::prompts::Prompts;

const PROMPTS_CONTENT: &str = r#"
        explain: "Explain prompt"
        os_prompt: "Operating system prompt for {os} and {shell}"
        combinator_powershell: "PowerShell combinator"
        combinator_default: "Default combinator"
        additional_instructions: "Additional instructions"
        "#;

fn prompts_from_yaml(content: &str) -> Prompts {
    let v: serde_yaml::Value = serde_yaml::from_str(content).unwrap();
    let field = |k: &str| v[k].as_str().unwrap().to_string();
    Prompts::new(
        &field("explain"),
        &field("os_prompt"),
        &field("combinator_powershell"),
        &field("combinator_default"),
        &field("additional_instructions"),
    )
}

#[test]
fn test_shell_prompt() {
    let prompts = prompts_from_yaml(PROMPTS_CONTENT);

    let shell_prompt = prompts.shell_prompt("Windows", "powershell");
    assert!(shell_prompt.contains("Operating system prompt for Windows and powershell"));
    assert!(shell_prompt.contains("PowerShell combinator"));
    assert!(shell_prompt.contains("Additional instructions"));

    let shell_prompt = prompts.shell_prompt("Linux", "bash");
    assert!(shell_prompt.contains("Operating system prompt for Linux and bash"));
    assert!(shell_prompt.contains("Default combinator"));
    assert!(shell_prompt.contains("Additional instructions"));
}

#[test]
fn shell_prompt_exact_text() {
    let prompts = prompts_from_yaml(PROMPTS_CONTENT);
    assert_eq!(
        prompts.shell_prompt("Linux", "bash"),
        "Operating system prompt for Linux and bash\nDefault combinator\nAdditional instructions"
    );
}

#[test]
fn shell_prompt_picks_one_combinator() {
    let prompts = prompts_from_yaml(PROMPTS_CONTENT);
    let ps = prompts.shell_prompt("Windows", "powershell");
    assert!(ps.contains("PowerShell combinator"));
    assert!(!ps.contains("Default combinator"));
    for shell in ["bash", "pwsh", "PowerShell", "powershell ", "cmd"].iter() {
        let other = prompts.shell_prompt("Windows", shell);
        assert!(other.contains("Default combinator"));
        assert!(!other.contains("PowerShell combinator"));
    }
}

#[test]
fn shell_prompt_caps_long_labels() {
    let prompts = Prompts::new("e", "{os}|{shell}|{os}", "p", "d", "a");
    let long_os = "abcdefghijklmnopqrstuvwxyz";
    let r = prompts.shell_prompt(long_os, "zsh");
    assert_eq!(r, "abcdefghijklmnopqrst|zsh|abcdefghijklmnopqrst\nd\na");
}

#[test]
fn truncate_label_at_cap() {
    assert_eq!(MAX_OS_SHELL_LEN, 20);
    assert_eq!(check_or_truncate_max_os_shell("bash"), "bash");
    assert_eq!(check_or_truncate_max_os_shell("12345678901234567890"), "12345678901234567890");
    assert_eq!(check_or_truncate_max_os_shell("123456789012345678901"), "12345678901234567890");
    assert_eq!(check_or_truncate_max_os_shell("ééééééééééééééééééééé"), "éééééééééééééééééééé");
}

#[test]
fn role_prompt_by_mode() {
    let prompts = prompts_from_yaml(PROMPTS_CONTENT);
    let explain = Question::new("Linux", "bash", "ls", true);
    assert_eq!(prompts.role_prompt(&explain), "Explain prompt");
    let command = Question::new("Linux", "bash", "ls", false);
    assert_eq!(prompts.role_prompt(&command), prompts.shell_prompt("Linux", "bash"));
}
