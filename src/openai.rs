use vstd::prelude::*;

use crate::client::{
    first_text, first_text_spec, header_is, is_success_spec, is_success_status, message_is,
    ChatMessage, ClientConfig, ClientError, Exchange, GenerateResponseResult, HttpRequest, Reply,
    RequestBody, UsageInfo,
};
use crate::text::concat_text;

verus! {

/// The responses endpoint.
pub const OPENAI_URL: &'static str = "https://api.openai.com/v1/responses";

/// The body of a responses request.
#[derive(Debug)]
pub struct OpenAIRequest {
    pub model: String,
    pub input: Vec<ChatMessage>,
    pub max_tokens: u32,
    /// In hundredths.
    pub temperature_hundredths: u32,
    pub stream: bool,
}

/// A decoded success answer: for each output element the text of its
/// content blocks, and the reported token counts.
#[derive(Debug, Clone)]
pub struct OpenAIReply {
    pub output: Vec<Vec<String>>,
    pub input_tokens: u32,
    pub output_tokens: u32,
    pub total_tokens: u32,
}

/// A client of the responses endpoint.
#[derive(Debug, Clone)]
pub struct OpenAIClient {
    pub config: ClientConfig,
}

/// `r` is the responses request for `config`, `system` and `user`.
pub open spec fn openai_request_is(
    r: HttpRequest,
    config: ClientConfig,
    system: Seq<char>,
    user: Seq<char>,
) -> bool {
    &&& r.url@ == OPENAI_URL@
    &&& r.headers@.len() == 2
    &&& header_is(r.headers@[0], "Content-Type"@, "application/json"@)
    &&& header_is(r.headers@[1], "Authorization"@, "Bearer "@ + config.api_key@)
    &&& r.body matches RequestBody::OpenAI(b) && {
        &&& b.model@ == config.model@
        &&& b.input@.len() == 2
        &&& message_is(b.input@[0], "system"@, system)
        &&& message_is(b.input@[1], "user"@, user)
        &&& b.max_tokens == config.max_tokens
        &&& b.temperature_hundredths == config.temperature_hundredths
        &&& !b.stream
    }
}

/// The text blocks of the first output element; none where there is none.
pub open spec fn first_output_spec(output: Seq<Vec<String>>) -> Seq<String> {
    if output.len() > 0 {
        output[0]@
    } else {
        Seq::empty()
    }
}

/// What a responses exchange comes to. All three counts are the reported
/// ones: the reported total is kept even where it is not the sum of the two
/// others.
pub open spec fn openai_outcome_is(
    e: Exchange,
    r: Result<GenerateResponseResult, ClientError>,
) -> bool {
    match e {
        Exchange::NotSent => r matches Err(ClientError::FailedToSend),
        Exchange::Answered { status, body, reply } => {
            if !is_success_spec(status) {
                r matches Err(ClientError::RequestFailed(t)) && t@ == body@
            } else {
                match reply {
                    Some(Reply::OpenAI(o)) => {
                        r matches Ok(g) && g.message@ == first_text_spec(
                            first_output_spec(o.output@),
                        ) && g.usage == (UsageInfo {
                            input_tokens: o.input_tokens,
                            output_tokens: o.output_tokens,
                            total_tokens: o.total_tokens,
                        })
                    },
                    _ => r matches Err(ClientError::FailedToParseResponse),
                }
            }
        },
    }
}

impl OpenAIClient {
    /// A client that addresses its provider as `config` says.
    pub fn new(config: ClientConfig) -> (r: Self)
        ensures
            r.config == config,
    {
        OpenAIClient { config }
    }

    /// The request that asks for a completion of `user_prompt` under
    /// `system_prompt`.
    pub fn generate_request(&self, system_prompt: String, user_prompt: String) -> (r: HttpRequest)
        ensures
            openai_request_is(r, self.config, system_prompt@, user_prompt@),
    {
        let mut headers: Vec<(String, String)> = Vec::new();
        headers.push(("Content-Type".to_owned(), "application/json".to_owned()));
        let bearer = concat_text("Bearer ", self.config.api_key.as_str());
        headers.push(("Authorization".to_owned(), bearer));
        let mut input: Vec<ChatMessage> = Vec::new();
        input.push(ChatMessage { role: "system".to_owned(), content: system_prompt });
        input.push(ChatMessage { role: "user".to_owned(), content: user_prompt });
        let body = OpenAIRequest {
            model: self.config.model.clone(),
            input,
            max_tokens: self.config.max_tokens,
            temperature_hundredths: self.config.temperature_hundredths,
            stream: false,
        };
        HttpRequest { url: OPENAI_URL.to_owned(), headers, body: RequestBody::OpenAI(body) }
    }

    /// Turns what came back from a responses request into a result.
    pub fn read_response(&self, exchange: Exchange) -> (r: Result<GenerateResponseResult, ClientError>)
        ensures
            openai_outcome_is(exchange, r),
    {
        match exchange {
            Exchange::NotSent => Err(ClientError::FailedToSend),
            Exchange::Answered { status, body, reply } => {
                if !is_success_status(status) {
                    return Err(ClientError::RequestFailed(body));
                }
                match reply {
                    Some(Reply::OpenAI(o)) => {
                        let message = if o.output.len() > 0 {
                            first_text(&o.output[0])
                        } else {
                            String::new()
                        };
                        let usage = UsageInfo {
                            input_tokens: o.input_tokens,
                            output_tokens: o.output_tokens,
                            total_tokens: o.total_tokens,
                        };
                        Ok(GenerateResponseResult { message, usage })
                    },
                    _ => Err(ClientError::FailedToParseResponse),
                }
            },
        }
    }
}

} // verus!
