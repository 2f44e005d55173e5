use shellchat::common::{Question, ShellResponse};

#[test]
fn test_question_serialization() {
    let question = Question {
        os: "Linux".to_string(),
        shell: "bash".to_string(),
        prompt: "What is Rust?".to_string(),
        explain: false,
    };

    let json = question.to_json();
    let deserialized: serde_json::Value = serde_json::from_str(&json).unwrap();

    assert_eq!(question.os, deserialized["os"].as_str().unwrap());
    assert_eq!(question.shell, deserialized["shell"].as_str().unwrap());
    assert_eq!(question.prompt, deserialized["prompt"].as_str().unwrap());
    assert_eq!(question.explain, deserialized["explain"].as_bool().unwrap());
}

#[test]
fn question_json_escapes_strings() {
    let q = Question::new("Linux", "bash", "say \"hi\"\n\tto\\me\u{1}", true);
    assert_eq!(
        q.to_json(),
        "{\"os\":\"Linux\",\"shell\":\"bash\",\"prompt\":\"say \\\"hi\\\"\\n\\tto\\\\me\\u0001\",\"explain\":true}"
    );
}

#[test]
fn response_json_exact() {
    let r = ShellResponse::success("ls -la".to_string());
    assert_eq!(r.to_json(), "{\"result\":\"ls -la\",\"error\":\"\"}");
    let e = ShellResponse::failure("boom".to_string());
    assert_eq!(e.to_json(), "{\"result\":\"\",\"error\":\"boom\"}");
}
