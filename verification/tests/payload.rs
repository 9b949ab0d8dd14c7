use ai_ark::payload::{
    authorization_header, build_request, default_endpoint, default_max_tokens, default_model,
    first_answer, status_is_success, Choice, Input, Message, OpenAIResponse, PayloadError,
    CONNECT_TIMEOUT_SECS,
};

fn message(role: &str, content: &str) -> Message {
    Message { role: role.to_string(), content: content.to_string() }
}

fn field(value: &serde_json::Value, name: &str) -> Option<String> {
    value.get(name).and_then(|v| v.as_str()).map(|s| s.to_string())
}

fn input_of(text: &str) -> Result<Input, PayloadError> {
    let value: serde_json::Value = serde_json::from_str(text).expect("the text is JSON");
    let history = value.get("history").and_then(|h| h.as_array()).map(|turns| {
        turns
            .iter()
            .map(|t| Message {
                role: field(t, "role").expect("role"),
                content: field(t, "content").expect("content"),
            })
            .collect()
    });
    Input::from_fields(
        field(&value, "prompt"),
        history,
        field(&value, "openai_endpoint"),
        field(&value, "model_name"),
        value.get("max_tokens").and_then(|v| v.as_u64()).map(|n| n as u32),
    )
}

#[test]
fn defaults() {
    assert_eq!(default_endpoint(), "https://api.openai.com/v1/chat/completions");
    assert_eq!(default_model(), "gpt-3.5-turbo");
    assert_eq!(default_max_tokens(), 150);
    assert_eq!(CONNECT_TIMEOUT_SECS, 30);
}

#[test]
fn empty_object_has_no_prompt() {
    assert_eq!(input_of("{}"), Err(PayloadError::MissingPrompt));
}

#[test]
fn payload_without_prompt_is_refused_whatever_else_it_holds() {
    assert_eq!(
        input_of(r#"{"model_name":"gpt-4","max_tokens":10,"history":[]}"#),
        Err(PayloadError::MissingPrompt)
    );
}

#[test]
fn prompt_alone_gets_every_default() {
    assert_eq!(
        input_of(r#"{"prompt":"Hello"}"#),
        Ok(Input {
            prompt: "Hello".to_string(),
            history: Vec::new(),
            openai_endpoint: "https://api.openai.com/v1/chat/completions".to_string(),
            model_name: "gpt-3.5-turbo".to_string(),
            max_tokens: 150,
        })
    );
}

#[test]
fn given_fields_are_kept() {
    let text = r#"{
        "prompt": "And then?",
        "history": [
            {"role": "user", "content": "Tell me a story"},
            {"role": "assistant", "content": "Once upon a time"}
        ],
        "openai_endpoint": "http://localhost:8080/v1/chat/completions",
        "model_name": "gpt-4",
        "max_tokens": 0
    }"#;
    assert_eq!(
        input_of(text),
        Ok(Input {
            prompt: "And then?".to_string(),
            history: vec![
                message("user", "Tell me a story"),
                message("assistant", "Once upon a time"),
            ],
            openai_endpoint: "http://localhost:8080/v1/chat/completions".to_string(),
            model_name: "gpt-4".to_string(),
            max_tokens: 0,
        })
    );
}

#[test]
fn empty_prompt_is_a_prompt() {
    let input = Input::from_fields(Some(String::new()), None, None, None, Some(u32::MAX))
        .expect("a prompt was given");
    assert_eq!(input.prompt, "");
    assert_eq!(input.max_tokens, u32::MAX);
}

#[test]
fn request_appends_the_prompt_to_the_history() {
    let input = Input {
        prompt: "And then?".to_string(),
        history: vec![message("user", "Tell me a story"), message("assistant", "Once upon a time")],
        openai_endpoint: "http://localhost/v1".to_string(),
        model_name: "gpt-4".to_string(),
        max_tokens: 64,
    };
    let (endpoint, request) = build_request(input);
    assert_eq!(endpoint, "http://localhost/v1");
    assert_eq!(request.model, "gpt-4");
    assert_eq!(request.max_tokens, 64);
    assert_eq!(
        request.messages,
        vec![
            message("user", "Tell me a story"),
            message("assistant", "Once upon a time"),
            message("user", "And then?"),
        ]
    );
}

#[test]
fn request_without_history_holds_the_prompt_alone() {
    let input = input_of(r#"{"prompt":"Hello"}"#).expect("a prompt was given");
    let (endpoint, request) = build_request(input);
    assert_eq!(endpoint, default_endpoint());
    assert_eq!(request.model, default_model());
    assert_eq!(request.max_tokens, default_max_tokens());
    assert_eq!(request.messages, vec![message("user", "Hello")]);
}

#[test]
fn authorization_is_bearer_and_the_key() {
    assert_eq!(authorization_header("test-key-123"), "Bearer test-key-123");
    assert_eq!(authorization_header(""), "Bearer ");
    assert_ne!(authorization_header("k"), "k");
}

#[test]
fn success_is_two_hundred_to_two_ninety_nine() {
    for status in [200u16, 201, 204, 250, 299] {
        assert!(status_is_success(status));
    }
    for status in [0u16, 100, 199, 300, 301, 400, 401, 404, 429, 500, 503, u16::MAX] {
        assert!(!status_is_success(status));
    }
}

#[test]
fn answer_is_the_first_choice() {
    let response = OpenAIResponse {
        choices: vec![
            Choice { message: message("assistant", "first") },
            Choice { message: message("assistant", "second") },
        ],
    };
    assert_eq!(first_answer(&response), Some(&"first".to_string()));
}

#[test]
fn response_without_choices_has_no_answer() {
    assert_eq!(first_answer(&OpenAIResponse { choices: Vec::new() }), None);
}

#[test]
fn empty_answer_is_an_answer() {
    let response = OpenAIResponse { choices: vec![Choice { message: message("assistant", "") }] };
    assert_eq!(first_answer(&response), Some(&String::new()));
}
