use shellchat::client::{ClientCli, Chatter, ServerReply, SERVER_UNAVAILABLE_MESSAGE, UNREADABLE_ANSWER};
use shellchat::client_cli::Cli as ClientArgs;
use shellchat::common::{ShellResponse, DEFAULT_API_KEY};
use shellchat::server_cli::Cli as ServerArgs;

fn cli(text: Vec<String>) -> ClientCli {
    ClientCli {
        url: "http://localhost:8080".to_string(),
        key: None,
        os: None,
        shell: None,
        explain: false,
        text,
    }
}

#[test]
fn test_client_cli_text() {
    let args = cli(vec!["Hello, world!".to_string()]);
    assert_eq!(args.text(), "Hello, world!");
}

#[test]
fn test_client_cli_text_empty() {
    let args = cli(vec![]);
    assert_eq!(args.text(), "");
}

#[test]
fn client_text_trims_and_joins() {
    let args = cli(vec![" list ".to_string(), "".to_string(), "files\n".to_string()]);
    assert_eq!(args.text(), "list  files");
}

#[test]
fn chatter_settings() {
    let mut args = cli(vec![]);
    let c = args.chatter("linux (ubuntu)", "bash");
    assert_eq!(c.url, "http://localhost:8080");
    assert_eq!(c.api_key, DEFAULT_API_KEY);
    assert_eq!(c.os, "linux (ubuntu)");
    assert_eq!(c.shell, "bash");
    args.key = Some("k".to_string());
    args.os = Some("Windows".to_string());
    args.shell = Some("powershell".to_string());
    let c = args.chatter("linux", "bash");
    assert_eq!(c.api_key, "k");
    assert_eq!(c.os, "Windows");
    assert_eq!(c.shell, "powershell");
}

#[test]
fn chatter_request() {
    let c = Chatter::new("http://localhost:8080", "test_key", "Linux", "bash");
    let q = c.build_request("Hello", true);
    assert_eq!(q.os, "Linux");
    assert_eq!(q.shell, "bash");
    assert_eq!(q.prompt, "Hello");
    assert!(q.explain);
    assert_eq!(
        c.request_body("Hello", false),
        "{\"os\":\"Linux\",\"shell\":\"bash\",\"prompt\":\"Hello\",\"explain\":false}"
    );
}

#[test]
fn answers_from_server() {
    let ok = ServerReply::Answered {
        status: 200,
        status_text: "200 OK".to_string(),
        body: Some("{}".to_string()),
        response: Some(ShellResponse::success("ls".to_string())),
    };
    assert_eq!(Chatter::read_answer(ok).unwrap(), "ls");
    let in_band = ServerReply::Answered {
        status: 200,
        status_text: "200 OK".to_string(),
        body: Some("{}".to_string()),
        response: Some(ShellResponse::failure("HTTP Request Error: x".to_string())),
    };
    assert_eq!(Chatter::read_answer(in_band).unwrap_err(), "HTTP Request Error: x");
    let denied = ServerReply::Answered {
        status: 401,
        status_text: "401 Unauthorized".to_string(),
        body: Some("Invalid API key".to_string()),
        response: None,
    };
    assert_eq!(Chatter::read_answer(denied).unwrap_err(), "401 Unauthorized: Invalid API key");
    let unreadable = ServerReply::Answered {
        status: 500,
        status_text: "500 Internal Server Error".to_string(),
        body: None,
        response: None,
    };
    assert_eq!(
        Chatter::read_answer(unreadable).unwrap_err(),
        format!("500 Internal Server Error: {}", UNREADABLE_ANSWER)
    );
    let garbled = ServerReply::Answered {
        status: 200,
        status_text: "200 OK".to_string(),
        body: Some("ls".to_string()),
        response: None,
    };
    assert_eq!(
        Chatter::read_answer(garbled).unwrap_err(),
        "Unexpected answer from the server: ls"
    );
    assert_eq!(Chatter::read_answer(ServerReply::Unreachable).unwrap_err(), SERVER_UNAVAILABLE_MESSAGE);
    assert_eq!(
        Chatter::read_answer(ServerReply::Failed("builder error".to_string())).unwrap_err(),
        "Request to the server failed: builder error"
    );
}

#[test]
fn endpoints() {
    let c = ClientArgs {
        address: "http://127.0.0.1".to_string(),
        port: "8080".to_string(),
        key: None,
        text: vec!["a".to_string(), " b".to_string()],
    };
    assert_eq!(c.endpoint(), "http://127.0.0.1:8080");
    assert_eq!(c.text(), "a b");
    let s = ServerArgs {
        config: "config.yaml".to_string(),
        address: "127.0.0.1".to_string(),
        port: "8080".to_string(),
        key: None,
    };
    assert_eq!(s.endpoint(), "127.0.0.1:8080");
}
