use gen_commit::anthropic::{AnthropicClient, AnthropicReply};
use gen_commit::client::{ClientConfig, ClientError, Exchange, Reply, RequestBody};
use gen_commit::openai::{OpenAIClient, OpenAIReply};

fn anthropic_reply(texts: &[&str], input: u32, output: u32) -> Option<Reply> {
    Some(Reply::Anthropic(AnthropicReply {
        content: texts.iter().map(|t| t.to_string()).collect(),
        input_tokens: input,
        output_tokens: output,
    }))
}

fn openai_reply(output: Vec<Vec<&str>>, input: u32, out: u32, total: u32) -> Option<Reply> {
    Some(Reply::OpenAI(OpenAIReply {
        output: output
            .into_iter()
            .map(|blocks| blocks.into_iter().map(|t| t.to_string()).collect())
            .collect(),
        input_tokens: input,
        output_tokens: out,
        total_tokens: total,
    }))
}

fn config(key: &str, model: &str) -> ClientConfig {
    ClientConfig {
        api_key: key.to_string(),
        model: model.to_string(),
        max_tokens: 500,
        temperature_hundredths: 70,
    }
}

fn answered(status: u16, body: &str, reply: Option<Reply>) -> Exchange {
    Exchange::Answered { status, body: body.to_string(), reply }
}

#[test]
fn anthropic_success_is_trimmed() {
    let client = AnthropicClient::new(config("key", "sonnet"));
    let result = client
        .read_response(answered(200, "", anthropic_reply(&["  hello  "], 12, 3)))
        .unwrap();
    assert_eq!(result.message, "hello");
    assert_eq!(result.usage.input_tokens, 12);
    assert_eq!(result.usage.output_tokens, 3);
    assert_eq!(result.usage.total_tokens, 15);
}

#[test]
fn anthropic_rejection_keeps_body() {
    let client = AnthropicClient::new(config("key", "sonnet"));
    match client.read_response(answered(403, "denied", None)) {
        Err(ClientError::RequestFailed(body)) => assert_eq!(body, "denied"),
        other => panic!("unexpected {:?}", other),
    }
}

#[test]
fn anthropic_undecodable_body() {
    let client = AnthropicClient::new(config("key", "sonnet"));
    assert!(matches!(
        client.read_response(answered(200, "{\"unexpected\":true}", None)),
        Err(ClientError::FailedToParseResponse)
    ));
    assert!(matches!(
        client.read_response(answered(200, "", openai_reply(vec![vec!["x"]], 1, 1, 2))),
        Err(ClientError::FailedToParseResponse)
    ));
}

#[test]
fn anthropic_not_sent() {
    let client = AnthropicClient::new(config("key", "sonnet"));
    assert!(matches!(client.read_response(Exchange::NotSent), Err(ClientError::FailedToSend)));
}

#[test]
fn anthropic_without_blocks_gives_empty_message() {
    let client = AnthropicClient::new(config("key", "sonnet"));
    let result = client.read_response(answered(201, "", anthropic_reply(&[], 4, 0))).unwrap();
    assert_eq!(result.message, "");
    assert_eq!(result.usage.total_tokens, 4);
}

#[test]
fn anthropic_total_that_overflows_is_undecodable() {
    let client = AnthropicClient::new(config("key", "sonnet"));
    assert!(matches!(
        client.read_response(answered(200, "", anthropic_reply(&["x"], u32::MAX, 1))),
        Err(ClientError::FailedToParseResponse)
    ));
}

#[test]
fn openai_success_is_trimmed() {
    let client = OpenAIClient::new(config("key", "gpt-4.1"));
    let result = client
        .read_response(answered(
            200,
            "",
            openai_reply(vec![vec!["  hello  ", "second"], vec!["other"]], 7, 2, 9),
        ))
        .unwrap();
    assert_eq!(result.message, "hello");
    assert_eq!(result.usage.total_tokens, 9);
}

#[test]
fn openai_keeps_reported_total() {
    let client = OpenAIClient::new(config("key", "gpt-4.1"));
    let result = client
        .read_response(answered(200, "", openai_reply(vec![vec!["m"]], 7, 2, 100)))
        .unwrap();
    assert_eq!(result.usage.input_tokens, 7);
    assert_eq!(result.usage.output_tokens, 2);
    assert_eq!(result.usage.total_tokens, 100);
}

#[test]
fn openai_rejection_keeps_body() {
    let client = OpenAIClient::new(config("key", "gpt-4.1"));
    match client.read_response(answered(500, "denied", None)) {
        Err(ClientError::RequestFailed(body)) => assert_eq!(body, "denied"),
        other => panic!("unexpected {:?}", other),
    }
    match client.read_response(answered(199, "early", openai_reply(vec![], 0, 0, 0))) {
        Err(ClientError::RequestFailed(body)) => assert_eq!(body, "early"),
        other => panic!("unexpected {:?}", other),
    }
}

#[test]
fn openai_undecodable_body() {
    let client = OpenAIClient::new(config("key", "gpt-4.1"));
    assert!(matches!(
        client.read_response(answered(200, "not json", None)),
        Err(ClientError::FailedToParseResponse)
    ));
    assert!(matches!(client.read_response(Exchange::NotSent), Err(ClientError::FailedToSend)));
}

#[test]
fn openai_without_output_gives_empty_message() {
    let client = OpenAIClient::new(config("key", "gpt-4.1"));
    let result = client.read_response(answered(200, "", openai_reply(vec![], 1, 2, 3))).unwrap();
    assert_eq!(result.message, "");
    let result = client
        .read_response(answered(200, "", openai_reply(vec![vec![]], 1, 2, 3)))
        .unwrap();
    assert_eq!(result.message, "");
}

#[test]
fn anthropic_request_shape() {
    let client = AnthropicClient::new(config("secret", "sonnet-4"));
    let request = client.generate_request("be brief".to_string(), "the diff".to_string());
    assert_eq!(request.url, "https://api.anthropic.com/v1/messages");
    assert_eq!(
        request.headers,
        vec![
            ("Content-Type".to_string(), "application/json".to_string()),
            ("x-api-key".to_string(), "secret".to_string()),
            ("anthropic-version".to_string(), "2023-06-01".to_string()),
        ]
    );
    match request.body {
        RequestBody::Anthropic(body) => {
            assert_eq!(body.model, "sonnet-4");
            assert_eq!(body.max_tokens, 500);
            assert_eq!(body.temperature_hundredths, 70);
            assert!(!body.stream);
            assert_eq!(body.messages.len(), 1);
            assert_eq!(body.messages[0].role, "user");
            assert_eq!(body.messages[0].content, "the diff");
            assert_eq!(body.system.len(), 1);
            assert_eq!(body.system[0].kind, "text");
            assert_eq!(body.system[0].text, "be brief");
        }
        other => panic!("unexpected {:?}", other),
    }
}

#[test]
fn openai_request_shape() {
    let client = OpenAIClient::new(config("secret", "gpt-4.1"));
    let request = client.generate_request("be brief".to_string(), "the diff".to_string());
    assert_eq!(request.url, "https://api.openai.com/v1/responses");
    assert_eq!(
        request.headers,
        vec![
            ("Content-Type".to_string(), "application/json".to_string()),
            ("Authorization".to_string(), "Bearer secret".to_string()),
        ]
    );
    match request.body {
        RequestBody::OpenAI(body) => {
            assert_eq!(body.model, "gpt-4.1");
            assert_eq!(body.input.len(), 2);
            assert_eq!(body.input[0].role, "system");
            assert_eq!(body.input[0].content, "be brief");
            assert_eq!(body.input[1].role, "user");
            assert_eq!(body.input[1].content, "the diff");
            assert!(!body.stream);
        }
        other => panic!("unexpected {:?}", other),
    }
}
