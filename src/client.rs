use vstd::prelude::*;

use crate::anthropic::{
    anthropic_outcome_is, anthropic_request_is, AnthropicClient, AnthropicReply, AnthropicRequest,
};
use crate::openai::{openai_outcome_is, openai_request_is, OpenAIClient, OpenAIReply, OpenAIRequest};
use crate::text::{find_char, same_text, trim_spec, trim_text};

verus! {

/// Token counts reported for one generation call.
#[derive(Debug, Clone, Copy, PartialEq, Eq, Structural)]
pub struct UsageInfo {
    pub input_tokens: u32,
    pub output_tokens: u32,
    pub total_tokens: u32,
}

/// The text a provider produced and what it cost.
#[derive(Debug)]
pub struct GenerateResponseResult {
    pub message: String,
    pub usage: UsageInfo,
}

/// Why a generation call failed.
#[derive(Debug, Clone)]
pub enum ClientError {
    /// The request never reached the provider.
    FailedToSend,
    /// The provider answered with a status outside 2xx; the body it sent.
    RequestFailed(String),
    /// A 2xx answer whose body does not follow the provider's schema.
    FailedToParseResponse,
}

impl ClientError {
    /// A value equal to this one.
    pub fn duplicate(&self) -> (r: Self)
        ensures
            r == *self,
    {
        match self {
            ClientError::FailedToSend => ClientError::FailedToSend,
            ClientError::RequestFailed(b) => ClientError::RequestFailed(b.clone()),
            ClientError::FailedToParseResponse => ClientError::FailedToParseResponse,
        }
    }
}

impl CreateClientError {
    /// A value equal to this one.
    pub fn duplicate(&self) -> (r: Self)
        ensures
            r == *self,
    {
        match self {
            CreateClientError::ParseError(e) => CreateClientError::ParseError(*e),
            CreateClientError::MissingCredential(v) => CreateClientError::MissingCredential(v.clone()),
        }
    }
}

/// The two supported providers.
#[derive(Debug, Clone, Copy, PartialEq, Eq, Structural)]
pub enum ModelProvider {
    OpenAI,
    Anthropic,
}

/// A model specifier that is not `provider:model`.
#[derive(Debug, Clone, Copy, PartialEq, Eq, Structural)]
pub enum ParseModelError {
    InvalidModelFormat,
}

/// Why no client could be built.
#[derive(Debug, Clone)]
pub enum CreateClientError {
    ParseError(ParseModelError),
    /// The environment variable that should hold the provider's key is unset.
    MissingCredential(String),
}

/// The tag that names `p` in a model specifier.
pub open spec fn provider_tag(p: ModelProvider) -> Seq<char> {
    match p {
        ModelProvider::OpenAI => "openai"@,
        ModelProvider::Anthropic => "anthropic"@,
    }
}

/// The provider whose tag is `t`, if any.
pub open spec fn provider_of_tag(t: Seq<char>) -> Option<ModelProvider> {
    if t == "openai"@ {
        Some(ModelProvider::OpenAI)
    } else if t == "anthropic"@ {
        Some(ModelProvider::Anthropic)
    } else {
        None
    }
}

/// `s` holds a colon at `i` and nowhere else.
pub open spec fn sole_colon_at(s: Seq<char>, i: int) -> bool {
    &&& 0 <= i < s.len()
    &&& s[i] == ':'
    &&& forall|j: int| 0 <= j < s.len() && j != i ==> s[j] != ':'
}

/// What a model specifier names: split at its only colon into a known
/// provider tag and a non-empty model name.
pub open spec fn parse_model_spec(s: Seq<char>) -> Option<(ModelProvider, Seq<char>)> {
    if exists|i: int| sole_colon_at(s, i) {
        let i = choose|i: int| sole_colon_at(s, i);
        let tag = s.subrange(0, i);
        let name = s.subrange(i + 1, s.len() as int);
        if name.len() > 0 && provider_of_tag(tag) is Some {
            Some((provider_of_tag(tag)->0, name))
        } else {
            None
        }
    } else {
        None
    }
}

/// Splits a `provider:model` specifier.
pub fn parse_model(model: &str) -> (r: Result<(ModelProvider, String), ParseModelError>)
    ensures
        match r {
            Ok((p, name)) => parse_model_spec(model@) == Some((p, name@)),
            Err(_) => parse_model_spec(model@) is None,
        },
{
    let n = model.unicode_len();
    let i = match find_char(model, ':') {
        Some(i) => i,
        None => {
            return Err(ParseModelError::InvalidModelFormat);
        },
    };
    let tag = model.substring_char(0, i);
    let name = model.substring_char(i + 1, n);
    let rest_colon = find_char(name, ':');
    proof {
        if rest_colon is None {
            assert forall|j: int| 0 <= j < model@.len() && j != i implies model@[j] != ':' by {
                if j > i {
                    assert(model@[j] == name@[j - i - 1]);
                }
            }
            assert(sole_colon_at(model@, i as int));
            let k = choose|k: int| sole_colon_at(model@, k);
            assert(k == i);
        } else {
            let j = rest_colon->0;
            assert(model@[i + 1 + j] == ':');
            assert forall|k: int| !sole_colon_at(model@, k) by {
                if sole_colon_at(model@, k) {
                    if k == i {
                        assert(model@[i + 1 + j] != ':');
                    }
                }
            }
        }
    }
    if rest_colon.is_some() || name.unicode_len() == 0 {
        return Err(ParseModelError::InvalidModelFormat);
    }
    let openai = "openai";
    let anthropic = "anthropic";
    if same_text(tag, openai) {
        Ok((ModelProvider::OpenAI, name.to_owned()))
    } else if same_text(tag, anthropic) {
        Ok((ModelProvider::Anthropic, name.to_owned()))
    } else {
        Err(ParseModelError::InvalidModelFormat)
    }
}

/// A specifier made of a known provider's tag, one colon and a non-empty
/// model name without colons parses into that provider and that name.
pub proof fn lemma_specifier_parses(p: ModelProvider, name: Seq<char>)
    requires
        name.len() > 0,
        forall|j: int| 0 <= j < name.len() ==> name[j] != ':',
    ensures
        parse_model_spec(provider_tag(p) + ":"@ + name) == Some((p, name)),
{
    reveal_strlit("openai");
    reveal_strlit("anthropic");
    reveal_strlit(":");
    let tag = provider_tag(p);
    let s = tag + ":"@ + name;
    let i = tag.len() as int;
    assert forall|j: int| 0 <= j < s.len() && j != i implies s[j] != ':' by {
        if j > i {
            assert(s[j] == name[j - i - 1]);
        }
    }
    assert(sole_colon_at(s, i));
    let k = choose|k: int| sole_colon_at(s, k);
    assert(k == i);
    assert(s.subrange(0, i) =~= tag);
    assert(s.subrange(i + 1, s.len() as int) =~= name);
}

/// A specifier without a colon, with more than one, or whose part before its
/// colon is no known provider's tag does not parse.
pub proof fn lemma_specifier_rejected(s: Seq<char>)
    requires
        (forall|j: int| 0 <= j < s.len() ==> s[j] != ':') || (exists|i: int, j: int|
            0 <= i < j < s.len() && s[i] == ':' && s[j] == ':') || (exists|i: int|
            sole_colon_at(s, i) && provider_of_tag(s.subrange(0, i)) is None),
    ensures
        parse_model_spec(s) is None,
{
    if exists|i: int| sole_colon_at(s, i) {
        let k = choose|k: int| sole_colon_at(s, k);
        if exists|i: int, j: int| 0 <= i < j < s.len() && s[i] == ':' && s[j] == ':' {
            let (i, j) = choose|i: int, j: int| 0 <= i < j < s.len() && s[i] == ':' && s[j] == ':';
            assert(i == k || s[i] != ':');
            assert(j == k || s[j] != ':');
        } else if exists|i: int| sole_colon_at(s, i) && provider_of_tag(s.subrange(0, i)) is None {
            let i = choose|i: int| sole_colon_at(s, i) && provider_of_tag(s.subrange(0, i)) is None;
            assert(i == k || s[i] != ':');
        } else {
            assert(s[k] == ':');
        }
    }
}

/// The temperature a built client gets unless told otherwise: 0.2, kept in
/// hundredths.
pub const DEFAULT_TEMPERATURE_HUNDREDTHS: u32 = 20;

/// The output budget a client gets when the builder is given none.
pub const DEFAULT_MAX_TOKENS: u32 = 500;

/// Everything one client needs to address its provider.
#[derive(Debug, Clone)]
pub struct ClientConfig {
    pub api_key: String,
    pub model: String,
    pub max_tokens: u32,
    /// The sampling temperature in hundredths (70 stands for 0.7).
    pub temperature_hundredths: u32,
}

/// One turn of a conversation sent to a provider.
#[derive(Debug, Clone)]
pub struct ChatMessage {
    pub role: String,
    pub content: String,
}

/// The body of a request, in the shape of the provider it goes to.
#[derive(Debug)]
pub enum RequestBody {
    Anthropic(AnthropicRequest),
    OpenAI(OpenAIRequest),
}

/// One HTTPS POST to a provider.
#[derive(Debug)]
pub struct HttpRequest {
    pub url: String,
    /// Header names and values, in the order they are sent.
    pub headers: Vec<(String, String)>,
    pub body: RequestBody,
}

/// The body of a 2xx answer, decoded in the shape of one provider's schema.
#[derive(Debug)]
pub enum Reply {
    Anthropic(AnthropicReply),
    OpenAI(OpenAIReply),
}

/// What came of sending one request.
#[derive(Debug)]
pub enum Exchange {
    /// The request could not be sent (connection, DNS or TLS failure).
    NotSent,
    /// The provider answered. `body` is the answer's text; `reply` is the body
    /// decoded in the provider's schema, or `None` where it does not decode.
    Answered { status: u16, body: String, reply: Option<Reply> },
}

/// A 2xx status.
pub open spec fn is_success_spec(status: u16) -> bool {
    200 <= status < 300
}

/// Whether an HTTP status is a success (2xx).
pub fn is_success_status(status: u16) -> (r: bool)
    ensures
        r == is_success_spec(status),
{
    200 <= status && status < 300
}

/// `h` is the header `name: value`.
pub open spec fn header_is(h: (String, String), name: Seq<char>, value: Seq<char>) -> bool {
    h.0@ == name && h.1@ == value
}

/// `m` is a turn with role `role` and content `content`.
pub open spec fn message_is(m: ChatMessage, role: Seq<char>, content: Seq<char>) -> bool {
    m.role@ == role && m.content@ == content
}

/// The first text block of a reply, trimmed; empty where there is none.
pub open spec fn first_text_spec(blocks: Seq<String>) -> Seq<char> {
    if blocks.len() > 0 {
        trim_spec(blocks[0]@)
    } else {
        Seq::empty()
    }
}

/// The first of `blocks`, trimmed, or an empty string where there is none.
pub fn first_text(blocks: &Vec<String>) -> (r: String)
    ensures
        r@ == first_text_spec(blocks@),
{
    if blocks.len() > 0 {
        trim_text(blocks[0].as_str()).to_owned()
    } else {
        String::new()
    }
}

/// A configured client of one of the two providers.
#[derive(Debug, Clone)]
pub enum Client {
    OpenAI(OpenAIClient),
    Anthropic(AnthropicClient),
}

/// `r` is the request that `c` sends for `system` and `user`.
pub open spec fn client_request_is(c: Client, r: HttpRequest, system: Seq<char>, user: Seq<char>) -> bool {
    match c {
        Client::OpenAI(o) => openai_request_is(r, o.config, system, user),
        Client::Anthropic(a) => anthropic_request_is(r, a.config, system, user),
    }
}

/// `r` is what `c` makes of the exchange `e`.
pub open spec fn client_outcome_is(
    c: Client,
    e: Exchange,
    r: Result<GenerateResponseResult, ClientError>,
) -> bool {
    match c {
        Client::OpenAI(_) => openai_outcome_is(e, r),
        Client::Anthropic(_) => anthropic_outcome_is(e, r),
    }
}

impl Client {
    /// The provider this client talks to.
    pub open spec fn provider_spec(self) -> ModelProvider {
        match self {
            Client::OpenAI(_) => ModelProvider::OpenAI,
            Client::Anthropic(_) => ModelProvider::Anthropic,
        }
    }

    /// This client's configuration.
    pub open spec fn config_spec(self) -> ClientConfig {
        match self {
            Client::OpenAI(c) => c.config,
            Client::Anthropic(c) => c.config,
        }
    }

    /// `self` is `old` with the configuration `config`.
    pub open spec fn reconfigured(self, old: Client, config: ClientConfig) -> bool {
        self == match old {
            Client::OpenAI(_) => Client::OpenAI(OpenAIClient { config }),
            Client::Anthropic(_) => Client::Anthropic(AnthropicClient { config }),
        }
    }

    /// A client of `provider` configured by `config`.
    pub fn new(provider: ModelProvider, config: ClientConfig) -> (r: Self)
        ensures
            r.provider_spec() == provider,
            r.config_spec() == config,
    {
        match provider {
            ModelProvider::OpenAI => Client::OpenAI(OpenAIClient::new(config)),
            ModelProvider::Anthropic => Client::Anthropic(AnthropicClient::new(config)),
        }
    }

    /// The provider this client talks to.
    pub fn provider(&self) -> (r: ModelProvider)
        ensures
            r == self.provider_spec(),
    {
        match self {
            Client::OpenAI(_) => ModelProvider::OpenAI,
            Client::Anthropic(_) => ModelProvider::Anthropic,
        }
    }

    fn config_mut(&mut self) -> (r: &mut ClientConfig)
        ensures
            *r == old(self).config_spec(),
            final(self).reconfigured(*old(self), *final(r)),
    {
        match self {
            Client::OpenAI(c) => &mut c.config,
            Client::Anthropic(c) => &mut c.config,
        }
    }

    /// Names the model that requests ask for.
    pub fn set_model(&mut self, model: String)
        ensures
            final(self).reconfigured(*old(self), ClientConfig { model, ..old(self).config_spec() }),
    {
        self.config_mut().model = model;
    }

    /// Sets the output budget of each request.
    pub fn set_max_tokens(&mut self, max_tokens: u32)
        ensures
            final(self).reconfigured(*old(self), ClientConfig { max_tokens, ..old(self).config_spec() }),
    {
        self.config_mut().max_tokens = max_tokens;
    }

    /// Sets the sampling temperature, in hundredths.
    pub fn set_temperature(&mut self, temperature_hundredths: u32)
        ensures
            final(self).reconfigured(
                *old(self),
                ClientConfig { temperature_hundredths, ..old(self).config_spec() },
            ),
    {
        self.config_mut().temperature_hundredths = temperature_hundredths;
    }

    /// The one request that a generation call sends.
    pub fn generate_request(&self, system_prompt: String, user_prompt: String) -> (r: HttpRequest)
        ensures
            client_request_is(*self, r, system_prompt@, user_prompt@),
    {
        match self {
            Client::OpenAI(c) => c.generate_request(system_prompt, user_prompt),
            Client::Anthropic(c) => c.generate_request(system_prompt, user_prompt),
        }
    }

    /// The result of a generation call, from what came back of its request.
    pub fn read_response(&self, exchange: Exchange) -> (r: Result<GenerateResponseResult, ClientError>)
        ensures
            client_outcome_is(*self, exchange, r),
    {
        match self {
            Client::OpenAI(c) => c.read_response(exchange),
            Client::Anthropic(c) => c.read_response(exchange),
        }
    }
}

/// The values of the two providers' key variables, as the environment holds
/// them.
#[derive(Debug, Clone)]
pub struct Credentials {
    pub openai_api_key: Option<String>,
    pub anthropic_api_key: Option<String>,
}

/// The environment variable that holds the key of `p`.
pub open spec fn credential_variable_spec(p: ModelProvider) -> Seq<char> {
    match p {
        ModelProvider::OpenAI => "OPENAI_API_KEY"@,
        ModelProvider::Anthropic => "ANTHROPIC_API_KEY"@,
    }
}

/// The environment variable that holds the key of `provider`.
pub fn credential_variable(provider: ModelProvider) -> (r: &'static str)
    ensures
        r@ == credential_variable_spec(provider),
{
    match provider {
        ModelProvider::OpenAI => "OPENAI_API_KEY",
        ModelProvider::Anthropic => "ANTHROPIC_API_KEY",
    }
}

impl Credentials {
    /// The key of `p`, if its variable is set.
    pub open spec fn key_spec(self, p: ModelProvider) -> Option<String> {
        match p {
            ModelProvider::OpenAI => self.openai_api_key,
            ModelProvider::Anthropic => self.anthropic_api_key,
        }
    }

    /// The key of `provider`, if its variable is set.
    pub fn key_for(&self, provider: ModelProvider) -> (r: Option<String>)
        ensures
            r == self.key_spec(provider),
    {
        match provider {
            ModelProvider::OpenAI => self.openai_api_key.clone(),
            ModelProvider::Anthropic => self.anthropic_api_key.clone(),
        }
    }
}

/// `r` is what building a client from `model`, `max_tokens`, `temperature`
/// and `credentials` comes to: the specifier must parse, and the provider's
/// key must be set.
pub open spec fn built_client_is(
    model: Seq<char>,
    max_tokens: u32,
    temperature_hundredths: u32,
    credentials: Credentials,
    r: Result<Client, CreateClientError>,
) -> bool {
    match parse_model_spec(model) {
        None => r matches Err(CreateClientError::ParseError(ParseModelError::InvalidModelFormat)),
        Some((p, name)) => match credentials.key_spec(p) {
            None => r matches Err(CreateClientError::MissingCredential(v)) && v@
                == credential_variable_spec(p),
            Some(key) => r matches Ok(c) && {
                &&& c.provider_spec() == p
                &&& c.config_spec().api_key == key
                &&& c.config_spec().model@ == name
                &&& c.config_spec().max_tokens == max_tokens
                &&& c.config_spec().temperature_hundredths == temperature_hundredths
            },
        },
    }
}

/// Collects the settings of a client before it is built.
#[derive(Debug, Clone)]
pub struct ClientBuilder {
    pub model: String,
    pub max_tokens: Option<u32>,
    pub temperature_hundredths: Option<u32>,
}

impl ClientBuilder {
    /// A builder for the `provider:model` specifier `model`, with no setting
    /// made yet.
    pub fn new(model: &str) -> (r: Self)
        ensures
            r.model@ == model@,
            r.max_tokens is None,
            r.temperature_hundredths is None,
    {
        ClientBuilder { model: model.to_owned(), max_tokens: None, temperature_hundredths: None }
    }

    /// Sets the output budget.
    pub fn max_tokens(self, max_tokens: u32) -> (r: Self)
        ensures
            r == (ClientBuilder { max_tokens: Some(max_tokens), ..self }),
    {
        ClientBuilder { max_tokens: Some(max_tokens), ..self }
    }

    /// Sets the temperature, in hundredths.
    pub fn temperature(self, temperature_hundredths: u32) -> (r: Self)
        ensures
            r == (ClientBuilder { temperature_hundredths: Some(temperature_hundredths), ..self }),
    {
        ClientBuilder { temperature_hundredths: Some(temperature_hundredths), ..self }
    }

    /// Builds the client that the specifier names, with the key that
    /// `credentials` holds for its provider. An unset budget is 500 tokens,
    /// an unset temperature 0.2.
    pub fn build(self, credentials: &Credentials) -> (r: Result<Client, CreateClientError>)
        ensures
            built_client_is(
                self.model@,
                match self.max_tokens {
                    Some(m) => m,
                    None => DEFAULT_MAX_TOKENS,
                },
                match self.temperature_hundredths {
                    Some(t) => t,
                    None => DEFAULT_TEMPERATURE_HUNDREDTHS,
                },
                *credentials,
                r,
            ),
    {
        let (provider, model_name) = match parse_model(self.model.as_str()) {
            Ok(parsed) => parsed,
            Err(e) => {
                return Err(CreateClientError::ParseError(e));
            },
        };
        let api_key = match credentials.key_for(provider) {
            Some(key) => key,
            None => {
                let variable = credential_variable(provider).to_owned();
                return Err(CreateClientError::MissingCredential(variable));
            },
        };
        let max_tokens = match self.max_tokens {
            Some(m) => m,
            None => DEFAULT_MAX_TOKENS,
        };
        let temperature_hundredths = match self.temperature_hundredths {
            Some(t) => t,
            None => DEFAULT_TEMPERATURE_HUNDREDTHS,
        };
        Ok(
            Client::new(
                provider,
                ClientConfig { api_key, model: model_name, max_tokens, temperature_hundredths },
            ),
        )
    }
}

/// Builds the client that `model` names, with the output budget `max_tokens`
/// and the default temperature.
pub fn create_client(
    model: &str,
    max_tokens: u32,
    credentials: &Credentials,
) -> (r: Result<Client, CreateClientError>)
    ensures
        built_client_is(model@, max_tokens, DEFAULT_TEMPERATURE_HUNDREDTHS, *credentials, r),
{
    ClientBuilder::new(model).max_tokens(max_tokens).build(credentials)
}

} // verus!
