use shellchat::extract::extract_block;

#[test]
fn test_extract_block() {
    let input = "Some text\n```\nCode block\n```";
    let output = extract_block(input);
    assert_eq!(output, "Code block");

    let input_no_block = "Some text without code block";
    let output_no_block = extract_block(input_no_block);
    assert_eq!(output_no_block, input_no_block);
}

#[test]
fn extract_single_line_block_keeps_its_first_word() {
    assert_eq!(extract_block("```ls -la```"), "ls -la");
}

#[test]
fn extract_skips_language_tag() {
    assert_eq!(extract_block("Run this:\n```bash\nls -la\n```\nDone."), "ls -la");
    assert_eq!(extract_block("```sh\r\npwd\r\n```"), "pwd");
}

#[test]
fn extract_joins_all_blocks() {
    let input = "First:\n```\ncd /tmp\n```\nthen:\n```\nls\n```";
    assert_eq!(extract_block(input), "cd /tmp\n\nls");
}

#[test]
fn extract_without_block_trims() {
    assert_eq!(extract_block("  echo hi \n"), "echo hi");
    assert_eq!(extract_block(""), "");
    assert_eq!(extract_block(" \t\n"), "");
}

#[test]
fn extract_unclosed_fence_is_no_block() {
    assert_eq!(extract_block(" ```\nls\n"), "```\nls");
}

#[test]
fn extract_empty_body_falls_back_to_reply() {
    assert_eq!(extract_block("``````"), "``````");
}

#[test]
fn extract_is_idempotent_on_examples() {
    let inputs = [
        "Some text\n```\nCode block\n```",
        "```ls -la```",
        "  plain text  ",
        "a ```x``` b ```y```",
        "````\n`x`\n````",
        "``````",
    ];
    for input in inputs.iter() {
        let once = extract_block(input);
        let twice = extract_block(&once);
        assert_eq!(once, twice, "input {:?}", input);
    }
}

#[test]
fn extract_blank_bodies_fall_back_to_reply() {
    assert_eq!(extract_block("x\n```\n \n```"), "x\n```\n \n```");
    assert_eq!(extract_block("```\n```"), "```\n```");
    assert_eq!(extract_block("  ```\n\t\n``` ```\n```  "), "```\n\t\n``` ```\n```");
}

#[test]
fn extract_tag_is_word_characters_only() {
    assert_eq!(extract_block("```c++\nint x;\n```"), "c++\nint x;");
    assert_eq!(extract_block("```shell_session\n$ ls\n```"), "$ ls");
}
