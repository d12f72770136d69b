use vstd::prelude::*;

use crate::client::{
    first_text, first_text_spec, header_is, is_success_spec, is_success_status, message_is,
    ChatMessage, ClientConfig, ClientError, Exchange, GenerateResponseResult, HttpRequest, Reply,
    RequestBody, UsageInfo,
};

verus! {

/// The messages endpoint.
pub const ANTHROPIC_URL: &'static str = "https://api.anthropic.com/v1/messages";

/// The API version every request announces.
pub const ANTHROPIC_VERSION: &'static str = "2023-06-01";

/// An instruction block of the `system` list.
#[derive(Debug, Clone)]
pub struct SystemMessage {
    /// The block's `type`; always `text` here.
    pub kind: String,
    pub text: String,
}

/// The body of a messages request.
#[derive(Debug)]
pub struct AnthropicRequest {
    pub model: String,
    pub max_tokens: u32,
    pub messages: Vec<ChatMessage>,
    pub stream: bool,
    /// In hundredths.
    pub temperature_hundredths: u32,
    pub system: Vec<SystemMessage>,
}

/// A decoded success answer: the text of each content block and the
/// reported token counts.
#[derive(Debug, Clone)]
pub struct AnthropicReply {
    pub content: Vec<String>,
    pub input_tokens: u32,
    pub output_tokens: u32,
}

/// A client of the messages endpoint.
#[derive(Debug, Clone)]
pub struct AnthropicClient {
    pub config: ClientConfig,
}

/// `r` is the messages request for `config`, `system` and `user`.
pub open spec fn anthropic_request_is(
    r: HttpRequest,
    config: ClientConfig,
    system: Seq<char>,
    user: Seq<char>,
) -> bool {
    &&& r.url@ == ANTHROPIC_URL@
    &&& r.headers@.len() == 3
    &&& header_is(r.headers@[0], "Content-Type"@, "application/json"@)
    &&& header_is(r.headers@[1], "x-api-key"@, config.api_key@)
    &&& header_is(r.headers@[2], "anthropic-version"@, ANTHROPIC_VERSION@)
    &&& r.body matches RequestBody::Anthropic(b) && {
        &&& b.model@ == config.model@
        &&& b.max_tokens == config.max_tokens
        &&& b.messages@.len() == 1
        &&& message_is(b.messages@[0], "user"@, user)
        &&& !b.stream
        &&& b.temperature_hundredths == config.temperature_hundredths
        &&& b.system@.len() == 1
        &&& b.system@[0].kind@ == "text"@
        &&& b.system@[0].text@ == system
    }
}

/// What a messages exchange comes to. The total is the sum of the two
/// reported counts; a sum beyond `u32` cannot be reported and counts as an
/// answer that does not decode.
pub open spec fn anthropic_outcome_is(
    e: Exchange,
    r: Result<GenerateResponseResult, ClientError>,
) -> bool {
    match e {
        Exchange::NotSent => r matches Err(ClientError::FailedToSend),
        Exchange::Answered { status, body, reply } => {
            if !is_success_spec(status) {
                r matches Err(ClientError::RequestFailed(t)) && t@ == body@
            } else {
                match reply {
                    Some(Reply::Anthropic(a)) => {
                        if a.input_tokens + a.output_tokens <= u32::MAX {
                            r matches Ok(g) && g.message@ == first_text_spec(a.content@) && g.usage
                                == (UsageInfo {
                                input_tokens: a.input_tokens,
                                output_tokens: a.output_tokens,
                                total_tokens: (a.input_tokens + a.output_tokens) as u32,
                            })
                        } else {
                            r matches Err(ClientError::FailedToParseResponse)
                        }
                    },
                    _ => r matches Err(ClientError::FailedToParseResponse),
                }
            }
        },
    }
}

impl AnthropicClient {
    /// A client that addresses its provider as `config` says.
    pub fn new(config: ClientConfig) -> (r: Self)
        ensures
            r.config == config,
    {
        AnthropicClient { config }
    }

    /// The request that asks for a completion of `user_prompt` under
    /// `system_prompt`.
    pub fn generate_request(&self, system_prompt: String, user_prompt: String) -> (r: HttpRequest)
        ensures
            anthropic_request_is(r, self.config, system_prompt@, user_prompt@),
    {
        let mut headers: Vec<(String, String)> = Vec::new();
        headers.push(("Content-Type".to_owned(), "application/json".to_owned()));
        headers.push(("x-api-key".to_owned(), self.config.api_key.clone()));
        headers.push(("anthropic-version".to_owned(), ANTHROPIC_VERSION.to_owned()));
        let mut messages: Vec<ChatMessage> = Vec::new();
        messages.push(ChatMessage { role: "user".to_owned(), content: user_prompt });
        let mut system: Vec<SystemMessage> = Vec::new();
        system.push(SystemMessage { kind: "text".to_owned(), text: system_prompt });
        let body = AnthropicRequest {
            model: self.config.model.clone(),
            max_tokens: self.config.max_tokens,
            messages,
            stream: false,
            temperature_hundredths: self.config.temperature_hundredths,
            system,
        };
        HttpRequest { url: ANTHROPIC_URL.to_owned(), headers, body: RequestBody::Anthropic(body) }
    }

    /// Turns what came back from a messages request into a result.
    pub fn read_response(&self, exchange: Exchange) -> (r: Result<GenerateResponseResult, ClientError>)
        ensures
            anthropic_outcome_is(exchange, r),
    {
        match exchange {
            Exchange::NotSent => Err(ClientError::FailedToSend),
            Exchange::Answered { status, body, reply } => {
                if !is_success_status(status) {
                    return Err(ClientError::RequestFailed(body));
                }
                match reply {
                    Some(Reply::Anthropic(a)) => {
                        if a.input_tokens > u32::MAX - a.output_tokens {
                            return Err(ClientError::FailedToParseResponse);
                        }
                        let message = first_text(&a.content);
                        let usage = UsageInfo {
                            input_tokens: a.input_tokens,
                            output_tokens: a.output_tokens,
                            total_tokens: a.input_tokens + a.output_tokens,
                        };
                        Ok(GenerateResponseResult { message, usage })
                    },
                    _ => Err(ClientError::FailedToParseResponse),
                }
            },
        }
    }
}

} // verus!
