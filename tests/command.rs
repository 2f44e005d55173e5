use shellchat::command::{detect_os, detect_shell, shell_for_module_path, Shell};

#[test]
fn test_detect_os() {
    let os = detect_os("linux", Some("NAME=\"Ubuntu\"\nID=ubuntu\nID_LIKE=debian\n"));
    assert!(!os.is_empty());
    assert_eq!(os, "linux (ubuntu)");
}

#[test]
fn detect_os_cases() {
    assert_eq!(detect_os("linux", None), "linux");
    assert_eq!(detect_os("linux", Some("NAME=x\nVERSION_ID=1\n")), "linux");
    assert_eq!(detect_os("linux", Some("ID=arch\r\nNAME=Arch\r\n")), "linux (arch)");
    assert_eq!(detect_os("linux", Some("ID=")), "linux ()");
    assert_eq!(detect_os("macos", Some("ID=ubuntu\n")), "macos");
}

#[test]
fn test_detect_shell() {
    let shell = detect_shell("linux", None, Some("/bin/bash"));
    assert!(!shell.name.is_empty());
    assert!(!shell.cmd.is_empty());
    assert!(!shell.arg.is_empty());
}

#[test]
fn detect_shell_unix() {
    let bash = detect_shell("linux", None, Some("/usr/bin/bash"));
    assert_eq!((bash.name.as_str(), bash.cmd.as_str(), bash.arg.as_str()), ("bash", "bash", "-c"));
    assert_eq!(bash.history_cmd.as_deref(), Some("history -s"));
    let zsh = detect_shell("macos", None, Some("/bin/zsh"));
    assert_eq!(zsh.history_cmd.as_deref(), Some("print -s"));
    let fish = detect_shell("linux", None, Some("/usr/local/bin/fish"));
    assert_eq!(fish.name, "fish");
    assert_eq!(fish.history_cmd, None);
    let pwsh = detect_shell("linux", None, Some("pwsh"));
    assert_eq!(pwsh.cmd, "pwsh");
    let other = detect_shell("linux", None, Some("/bin/tcsh"));
    assert_eq!((other.name.as_str(), other.cmd.as_str()), ("sh", "sh"));
    let unset = detect_shell("linux", None, None);
    assert_eq!(unset.name, "sh");
}

#[test]
fn detect_shell_windows() {
    let cmd = detect_shell("windows", None, None);
    assert_eq!((cmd.name.as_str(), cmd.cmd.as_str(), cmd.arg.as_str()), ("cmd", "cmd.exe", "/C"));
    let short = detect_shell("windows", Some("a;b"), None);
    assert_eq!(short.name, "cmd");
    let ps = detect_shell("windows", Some("C:\\a;C:\\b;C:\\c"), None);
    assert_eq!((ps.name.as_str(), ps.cmd.as_str(), ps.arg.as_str()), ("powershell", "powershell.exe", "-Command"));
    let ps7 = detect_shell("windows", Some("C:\\Program Files\\PowerShell\\7\\Modules;C:\\b;C:\\c"), None);
    assert_eq!((ps7.name.as_str(), ps7.cmd.as_str(), ps7.arg.as_str()), ("pwsh", "pwsh.exe", "-c"));
}

#[test]
fn history_and_exit_codes() {
    let bash = Shell::new("bash", "bash", "-c", Some("history -s"));
    assert_eq!(bash.history_entry("ls -la", true).as_deref(), Some("history -s \"ls -la\""));
    assert_eq!(bash.history_entry("ls -la", false), None);
    let sh = Shell::new("sh", "sh", "-c", None);
    assert_eq!(sh.history_entry("ls", true), None);
    assert_eq!(sh.args("ls"), vec!["-c".to_string(), "ls".to_string()]);
    assert_eq!(Shell::exit_code(Some(3)), 3);
    assert_eq!(Shell::exit_code(Some(0)), 0);
    assert_eq!(Shell::exit_code(None), 1);
}

#[test]
fn module_path_decides_powershell() {
    assert!(shell_for_module_path("a;b").is_none());
    assert_eq!(shell_for_module_path("a;b;c").unwrap().name, "powershell");
    assert_eq!(shell_for_module_path("c:\\program files\\powershell\\7\\modules;b;c").unwrap().cmd, "pwsh.exe");
    assert_eq!(shell_for_module_path("c:\\PowerShell\\7\\modules;b;c").unwrap().name, "powershell");
}
