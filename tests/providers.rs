use shellchat::providers::{
    first_content, new_provider, AzureOpenAI, Choice, CompletionResponse, Message, ParsedBody,
    ProviderConfig, ProviderError, ProviderReply,
};

fn azure() -> AzureOpenAI {
    let config = ProviderConfig::AzureOpenAI {
        api_key: "k".to_string(),
        api_url: "https://example.openai.azure.com".to_string(),
        model: "gpt-4o".to_string(),
    };
    match new_provider(&config) {
        Ok(p) => p,
        Err(_) => panic!("Azure must be served"),
    }
}

fn completion(contents: &[&str]) -> CompletionResponse {
    CompletionResponse {
        choices: contents
            .iter()
            .map(|c| Choice { message: Message { content: c.to_string() } })
            .collect(),
    }
}

#[test]
fn azure_provider_url() {
    let p = azure();
    assert_eq!(p.model, "gpt-4o");
    assert_eq!(p.api_key, "k");
    assert_eq!(
        p.url_full,
        "https://example.openai.azure.com/openai/deployments/gpt-4o/chat/completions?api-version=2024-02-01"
    );
}

#[test]
fn other_providers_are_configuration_errors() {
    let openai = ProviderConfig::OpenAI {
        api_key: "k".to_string(),
        api_url: "u".to_string(),
        model: "m".to_string(),
    };
    match new_provider(&openai) {
        Err(e) => assert_eq!(e.message(), "the provider not implemented yet: OpenAI"),
        Ok(_) => panic!("OpenAI is not served"),
    }
    let ollama = ProviderConfig::Ollama {
        api_key: "k".to_string(),
        api_url: "u".to_string(),
        model: "m".to_string(),
    };
    match new_provider(&ollama) {
        Err(e) => assert_eq!(e.message(), "the provider not implemented yet: Ollama"),
        Ok(_) => panic!("Ollama is not served"),
    }
}

#[test]
fn request_body_is_chat_completion() {
    let body = azure().request_body("be \"brief\"", "hi\n");
    assert_eq!(
        body,
        "{\"model\":\"gpt-4o\",\"messages\":[{\"role\":\"system\",\"content\":\"be \\\"brief\\\"\"},{\"role\":\"user\",\"content\":\"hi\\n\"}]}"
    );
    let v: serde_json::Value = serde_json::from_str(&body).unwrap();
    assert_eq!(v["messages"][0]["content"], "be \"brief\"");
    assert_eq!(v["messages"][1]["role"], "user");
}

#[test]
fn reply_first_choice() {
    let reply = ProviderReply::Received {
        raw: "{...}".to_string(),
        parsed: ParsedBody::Completion(completion(&["first", "second"])),
    };
    assert_eq!(AzureOpenAI::read_reply(reply).ok().unwrap(), "first");
    assert_eq!(first_content(&completion(&[])), None);
}

#[test]
fn reply_errors() {
    let empty = ProviderReply::Received {
        raw: "{\"choices\":[]}".to_string(),
        parsed: ParsedBody::Completion(completion(&[])),
    };
    match AzureOpenAI::read_reply(empty) {
        Err(ProviderError::UnexpectedResponse(raw)) => assert_eq!(raw, "{\"choices\":[]}"),
        _ => panic!("empty choices must be unexpected"),
    }
    let shape = ProviderReply::Received { raw: "{}".to_string(), parsed: ParsedBody::OtherShape };
    match AzureOpenAI::read_reply(shape) {
        Err(ProviderError::UnexpectedResponse(raw)) => assert_eq!(raw, "{}"),
        _ => panic!("other shapes must be unexpected"),
    }
    let garbled = ProviderReply::Received {
        raw: "<html>".to_string(),
        parsed: ParsedBody::NotJson("expected value".to_string()),
    };
    match AzureOpenAI::read_reply(garbled) {
        Err(e @ ProviderError::ParseError(_)) => {
            assert_eq!(e.message(), "JSON Parsing Error: expected value")
        }
        _ => panic!("non-JSON must be a parse error"),
    }
    match AzureOpenAI::read_reply(ProviderReply::Failed("timed out".to_string())) {
        Err(e @ ProviderError::RequestError(_)) => {
            assert_eq!(e.message(), "HTTP Request Error: timed out")
        }
        _ => panic!("transport failures must be request errors"),
    }
    assert_eq!(
        ProviderError::UnexpectedResponse("x".to_string()).message(),
        "Unexpected Response Structure"
    );
}
