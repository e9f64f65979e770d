//! The clients that talk to a model's HTTP API: which one a provider type picks, where
//! requests go and what they carry. Sending them is left to the caller.
use vstd::prelude::*;
use vstd::string::*;
use crate::messages::ChatMessage;
use crate::schema::ToolDefinition;
use crate::stream::OllamaRequest;
use crate::text::{trim_end_with, char_pred, chars_of, string_from_chars, sub_chars, owned, concat2, str_eq};

verus! {

broadcast use vstd::string::group_string_axioms;

/// An HTTP client of `reqwest`.
#[verifier::external_type_specification]
#[verifier::external_body]
pub struct ExHttpClient(reqwest::Client);

/// A builder of `reqwest` HTTP clients.
#[verifier::external_type_specification]
#[verifier::external_body]
pub struct ExHttpClientBuilder(reqwest::ClientBuilder);

/// An error of `reqwest`.
#[verifier::external_type_specification]
#[verifier::external_body]
pub struct ExHttpError(reqwest::Error);

/// `reqwest::Client::builder`: a builder with the default configuration.
#[verifier::external_body]
fn client_builder() -> (r: reqwest::ClientBuilder) {
    reqwest::Client::builder()
}

/// `reqwest::ClientBuilder::user_agent`: the builder with the given `User-Agent` header.
/// What it holds is not visible here.
#[verifier::external_body]
fn with_user_agent(b: reqwest::ClientBuilder, agent: &str) -> (r: reqwest::ClientBuilder) {
    b.user_agent(agent)
}

/// `reqwest::ClientBuilder::build`: the client, or the error when the TLS backend or the
/// resolver cannot be set up (which depends on the machine, so nothing is stated).
#[verifier::external_body]
fn build_client(b: reqwest::ClientBuilder) -> (r: Result<reqwest::Client, reqwest::Error>) {
    b.build()
}

/// `reqwest::Client::new`: a client with the default configuration. Its source builds one
/// and panics when that fails; with the features reqwest is built with here (no TLS
/// backend, no custom resolver) building a fresh configuration has no failing path.
#[verifier::external_body]
fn default_client() -> (r: reqwest::Client) {
    reqwest::Client::new()
}

/// The HTTP client every model client uses: one that identifies as the gateway, or a
/// default one when that cannot be built.
fn gateway_http_client() -> reqwest::Client {
    let b = with_user_agent(client_builder(), "OpenClaw-Gateway/1.0");
    match build_client(b) {
        Ok(c) => c,
        Err(_) => default_client(),
    }
}

/// `s` without its trailing slashes (`str::trim_end_matches('/')`).
fn trim_trailing_slashes(s: &str) -> (r: String)
    ensures
        r@ == trim_end_with(s@, char_pred('/')),
{
    let v = chars_of(s);
    let ghost p = char_pred('/');
    let mut end: usize = v.len();
    assert(v@.subrange(0, v@.len() as int) == v@);
    while end > 0 && v[end - 1] == '/'
        invariant
            p == char_pred('/'),
            end <= v@.len(),
            trim_end_with(v@, p) == trim_end_with(v@.subrange(0, end as int), p),
        decreases end,
    {
        assert(v@.subrange(0, end as int).drop_last() == v@.subrange(0, end - 1));
        assert(p(v@.subrange(0, end as int).last()));
        end = end - 1;
    }
    assert(!(end > 0 && p(v@.subrange(0, end as int).last())));
    string_from_chars(sub_chars(v.as_slice(), 0, end).as_slice())
}

/// A client of an Ollama server.
pub struct OllamaClient {
    base_url: String,
    http_client: reqwest::Client,
}

impl OllamaClient {
    /// The server's base URL.
    pub closed spec fn url(&self) -> Seq<char> {
        self.base_url@
    }

    /// The HTTP client the requests go through.
    pub closed spec fn client(&self) -> reqwest::Client {
        self.http_client
    }

    /// A client of the server at `base_url`.
    pub fn new(base_url: String) -> (r: Self)
        ensures
            r.url() == base_url@,
    {
        OllamaClient { base_url, http_client: gateway_http_client() }
    }

    /// The server's base URL.
    pub fn base_url(&self) -> (r: &str)
        ensures
            r@ == self.url(),
    {
        self.base_url.as_str()
    }

    /// The HTTP client to send requests with.
    pub fn http_client(&self) -> (r: &reqwest::Client)
        ensures
            *r == self.client(),
    {
        &self.http_client
    }

    /// Where chat requests go: `{base_url}/api/chat`.
    pub fn chat_url(&self) -> (r: String)
        ensures
            r@ == self.url() + "/api/chat"@,
    {
        concat2(self.base_url.as_str(), "/api/chat")
    }

    /// A chat request for `model`, streamed or not.
    pub fn request(
        model: &str,
        messages: Vec<ChatMessage>,
        tools: Option<Vec<ToolDefinition>>,
        stream: bool,
    ) -> (r: OllamaRequest)
        ensures
            r.model@ == model@,
            r.messages == messages,
            r.tools == tools,
            r.stream == stream,
    {
        OllamaRequest { model: owned(model), messages, tools, stream }
    }
}

/// A client of an OpenAI-compatible API.
pub struct OpenAIClient {
    base_url: String,
    api_key: String,
    http_client: reqwest::Client,
}

impl OpenAIClient {
    /// The API's base URL.
    pub closed spec fn url(&self) -> Seq<char> {
        self.base_url@
    }

    /// The HTTP client the requests go through.
    pub closed spec fn client(&self) -> reqwest::Client {
        self.http_client
    }

    /// The API key; empty for none.
    pub closed spec fn key(&self) -> Seq<char> {
        self.api_key@
    }

    /// A client of the API at `base_url`, authenticating with `api_key` unless it is empty.
    pub fn new(base_url: String, api_key: String) -> (r: Self)
        ensures
            r.url() == base_url@,
            r.key() == api_key@,
    {
        OpenAIClient { base_url, api_key, http_client: gateway_http_client() }
    }

    /// The API's base URL.
    pub fn base_url(&self) -> (r: &str)
        ensures
            r@ == self.url(),
    {
        self.base_url.as_str()
    }

    /// The API key.
    pub fn api_key(&self) -> (r: &str)
        ensures
            r@ == self.key(),
    {
        self.api_key.as_str()
    }

    /// The HTTP client to send requests with.
    pub fn http_client(&self) -> (r: &reqwest::Client)
        ensures
            *r == self.client(),
    {
        &self.http_client
    }

    /// Where chat requests go: the base URL without trailing slashes, then
    /// `/chat/completions`.
    pub fn completions_url(&self) -> (r: String)
        ensures
            r@ == trim_end_with(self.url(), char_pred('/')) + "/chat/completions"@,
    {
        let mut u = trim_trailing_slashes(self.base_url.as_str());
        u.append("/chat/completions");
        u
    }

    /// The `Authorization` header: `Bearer {key}`, or none when the key is empty.
    pub fn authorization(&self) -> (r: Option<String>)
        ensures
            self.key().len() == 0 ==> r is None,
            self.key().len() > 0 ==> (r matches Some(h) && h@ == "Bearer "@ + self.key()),
    {
        if self.api_key.as_str().is_empty() {
            None
        } else {
            Some(concat2("Bearer ", self.api_key.as_str()))
        }
    }
}

/// The error text when a model's API answers with a failure status.
pub fn api_error_message(api: &str, status: &str, body: &str) -> (r: String)
    ensures
        r@ == api@ + " API error: "@ + status@ + " - "@ + body@,
{
    let mut m = concat2(api, " API error: ");
    m.append(status);
    m.append(" - ");
    m.append(body);
    m
}

/// The client a streamed chat goes through.
pub enum StreamBackend<'a> {
    OpenAI(&'a OpenAIClient),
    Ollama(&'a OllamaClient),
}

/// A client for the provider type of an agent: an OpenAI-compatible one for `openai`, an
/// Ollama one for any other type.
pub struct LLMClient {
    provider_type: String,
    openai_client: Option<OpenAIClient>,
    ollama_client: Option<OllamaClient>,
}

impl LLMClient {
    /// The provider type it was made for.
    pub closed spec fn kind(&self) -> Seq<char> {
        self.provider_type@
    }

    /// The OpenAI-compatible client, if there is one.
    pub closed spec fn openai(&self) -> Option<OpenAIClient> {
        self.openai_client
    }

    /// The Ollama client, if there is one.
    pub closed spec fn ollama(&self) -> Option<OllamaClient> {
        self.ollama_client
    }

    /// Whether this is the client `new` makes for these arguments: for `openai` one of the
    /// API at `base_url` with `api_key`, else one of the Ollama server at `base_url`.
    pub open spec fn made_for(&self, base_url: Seq<char>, provider_type: Seq<char>, api_key: Seq<char>) -> bool {
        &&& self.kind() == provider_type
        &&& provider_type == "openai"@ ==> self.ollama() is None && (self.openai() matches Some(c)
            && c.url() == base_url && c.key() == api_key)
        &&& provider_type != "openai"@ ==> self.openai() is None && (self.ollama() matches Some(c)
            && c.url() == base_url)
    }

    /// A client for `provider_type`: for `openai` one of the API at `base_url` with
    /// `api_key`, else one of the Ollama server at `base_url`.
    pub fn new(base_url: String, provider_type: String, api_key: String) -> (r: Self)
        ensures
            r.made_for(base_url@, provider_type@, api_key@),
    {
        if str_eq(provider_type.as_str(), "openai") {
            LLMClient {
                provider_type,
                openai_client: Some(OpenAIClient::new(base_url, api_key)),
                ollama_client: None,
            }
        } else {
            LLMClient {
                provider_type,
                openai_client: None,
                ollama_client: Some(OllamaClient::new(base_url)),
            }
        }
    }

    /// The provider type it was made for.
    pub fn provider_type(&self) -> (r: &str)
        ensures
            r@ == self.kind(),
    {
        self.provider_type.as_str()
    }

    /// The client a streamed chat goes through: the OpenAI-compatible one for `openai`, else
    /// the Ollama one; an error when that client is missing.
    pub fn stream_backend(&self) -> (r: Result<StreamBackend<'_>, String>)
        ensures
            self.kind() == "openai"@ ==> match self.openai() {
                Some(c) => r matches Ok(StreamBackend::OpenAI(x)) && *x == c,
                None => r matches Err(e) && e@ == "OpenAI client not initialized"@,
            },
            self.kind() != "openai"@ ==> match self.ollama() {
                Some(c) => r matches Ok(StreamBackend::Ollama(x)) && *x == c,
                None => r matches Err(e) && e@ == "Ollama client not initialized"@,
            },
    {
        if str_eq(self.provider_type.as_str(), "openai") {
            match &self.openai_client {
                Some(c) => Ok(StreamBackend::OpenAI(c)),
                None => Err(owned("OpenAI client not initialized")),
            }
        } else {
            match &self.ollama_client {
                Some(c) => Ok(StreamBackend::Ollama(c)),
                None => Err(owned("Ollama client not initialized")),
            }
        }
    }

    /// The client a chat that is not streamed goes through: always the Ollama one, and an
    /// error when there is none.
    pub fn chat_backend(&self) -> (r: Result<&OllamaClient, String>)
        ensures
            match self.ollama() {
                Some(c) => r matches Ok(x) && *x == c,
                None => r matches Err(e) && e@
                    == "Ollama client not initialized for non-streaming chat"@,
            },
    {
        match &self.ollama_client {
            Some(c) => Ok(c),
            None => Err(owned("Ollama client not initialized for non-streaming chat")),
        }
    }
}

} // verus!
