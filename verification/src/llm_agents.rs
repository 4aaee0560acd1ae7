//! The two language-model agents (transcript cleaning and summary), which
//! talk to a local OpenAI-compatible proxy: what each request carries, and
//! what each way a call can end is answered. The HTTP exchange itself is run
//! by the application, which reports back how it ended.

use vstd::prelude::*;
use crate::config::AppConfig;
use crate::prompt_templates::{CLEANER_SYSTEM, SUMMARIZER_SYSTEM};
use crate::text::{concat_str, decimal, decimal_string};

verus! {

/// One message of a chat request.
#[derive(Debug, Clone, PartialEq, Eq)]
pub struct ChatMessage {
    pub role: String,
    pub content: String,
}

/// A chat completion request, without its sampling temperature (0.2, kept
/// low for repeatable cleaning and summaries), which the sender adds.
#[derive(Debug, Clone, PartialEq, Eq)]
pub struct ChatRequest {
    pub model: String,
    pub messages: Vec<ChatMessage>,
}

/// The message of one choice of a chat completion.
#[derive(Debug, Clone, PartialEq, Eq)]
pub struct ChatMessageResponse {
    pub content: String,
}

/// One choice of a chat completion.
#[derive(Debug, Clone, PartialEq, Eq)]
pub struct ChatChoice {
    pub message: ChatMessageResponse,
}

/// A decoded chat completion.
#[derive(Debug, Clone, PartialEq, Eq)]
pub struct ChatResponse {
    pub choices: Vec<ChatChoice>,
}

#[verifier::external_type_specification]
#[verifier::external_body]
pub struct ExReqwestError(reqwest::Error);

/// Why an agent call produced no text.
#[derive(Debug)]
pub enum AgentError {
    /// Nothing listens at the proxy URL (the proxy is not running).
    ProxyUnreachable(String),
    /// The proxy answered with a status other than 200.
    ProxyError { status: u16, body: String },
    /// Any other failure of the HTTP exchange or of decoding the reply.
    Network(reqwest::Error),
    /// The reply held no choice.
    EmptyResponse,
}

/// Role of the system prompt message.
pub const ROLE_SYSTEM: &'static str = "system";

/// Role of the message that carries the text to process.
pub const ROLE_USER: &'static str = "user";

/// Timeout of the proxy calls when the configuration sets none, in seconds.
pub const DEFAULT_TIMEOUT_SECS: u64 = 60;

/// The only status whose body is read as a completion.
pub const STATUS_OK: u16 = 200;

/// Message of `ProxyUnreachable`, before the URL.
pub const UNREACHABLE_START: &'static str = "El proxy LLM no está corriendo en ";

/// Message of `ProxyUnreachable`, after the URL.
pub const UNREACHABLE_END: &'static str = ". Inicia gemini-proxy-balancer primero.";

/// Message of `ProxyError`, before the status.
pub const PROXY_ERROR_START: &'static str = "El proxy retornó error ";

/// Message of `ProxyError`, between the status and the body.
pub const PROXY_ERROR_SEPARATOR: &'static str = ": ";

/// Message of `Network`, before the error's own text.
pub const NETWORK_START: &'static str = "Error de red: ";

/// Message of `EmptyResponse`.
pub const EMPTY_RESPONSE: &'static str = "Respuesta del proxy sin contenido";

/// What `reqwest::Error`'s `Display` writes for an error: its kind, and the
/// URL of the request when it has one.
pub uninterp spec fn network_text(error: reqwest::Error) -> Seq<char>;

/// Calls `to_string` on a `reqwest::Error` (its `Display`). Claimed: the text
/// is the one named `network_text`, a function of the error alone.
#[verifier::external_body]
fn network_error_text(error: &reqwest::Error) -> (text: String)
    ensures
        text@ == network_text(*error),
{
    error.to_string()
}

/// What `reqwest::Error::is_connect` answers for an error: whether a
/// connection error of hyper's client is in its cause chain.
pub uninterp spec fn connect_failure(error: reqwest::Error) -> bool;

/// Calls `reqwest::Error::is_connect`: whether the error arose while
/// connecting. Claimed: the answer is the one named `connect_failure`, a
/// function of the error alone (it walks the error's cause chain).
#[verifier::external_body]
fn error_is_connect(error: &reqwest::Error) -> (b: bool)
    ensures
        b == connect_failure(*error),
{
    error.is_connect()
}

impl AgentError {
    /// The text of the error, as shown to the user; a network error's text
    /// ends with reqwest's own text for the error.
    pub fn message(&self) -> (m: String)
        ensures
            match *self {
                AgentError::ProxyUnreachable(url) => m@ == UNREACHABLE_START@ + url@
                    + UNREACHABLE_END@,
                AgentError::ProxyError { status, body } => m@ == PROXY_ERROR_START@ + decimal(
                    status as nat,
                ) + PROXY_ERROR_SEPARATOR@ + body@,
                AgentError::Network(e) => m@ == NETWORK_START@ + network_text(e),
                AgentError::EmptyResponse => m@ == EMPTY_RESPONSE@,
            },
    {
        match self {
            AgentError::ProxyUnreachable(url) => {
                let mut m = concat_str(UNREACHABLE_START, url.as_str());
                m.append(UNREACHABLE_END);
                m
            },
            AgentError::ProxyError { status, body } => {
                let mut m = concat_str(PROXY_ERROR_START, decimal_string(*status as u64).as_str());
                m.append(PROXY_ERROR_SEPARATOR);
                m.append(body.as_str());
                m
            },
            AgentError::Network(e) => {
                let text = network_error_text(e);
                concat_str(NETWORK_START, text.as_str())
            },
            AgentError::EmptyResponse => String::from_str(EMPTY_RESPONSE),
        }
    }

    /// The error for a request that could not be sent: unreachable proxy at
    /// `proxy_url` when the failure came from connecting, otherwise the
    /// network error itself.
    pub fn classify_send_error(is_connect: bool, error: reqwest::Error, proxy_url: &str) -> (e: AgentError)
        ensures
            is_connect ==> (e matches AgentError::ProxyUnreachable(u) && u@ == proxy_url@),
            !is_connect ==> e == AgentError::Network(error),
    {
        if is_connect {
            AgentError::ProxyUnreachable(String::from_str(proxy_url))
        } else {
            AgentError::Network(error)
        }
    }

    /// The error for a request that could not be sent, asking reqwest whether
    /// the failure came from connecting: then the proxy is unreachable at
    /// `proxy_url`, otherwise the error is passed on as a network error.
    pub fn from_send_error(error: reqwest::Error, proxy_url: &str) -> (e: AgentError)
        ensures
            connect_failure(error) ==> (e matches AgentError::ProxyUnreachable(u) && u@
                == proxy_url@),
            !connect_failure(error) ==> e == AgentError::Network(error),
    {
        let is_connect = error_is_connect(&error);
        AgentError::classify_send_error(is_connect, error, proxy_url)
    }
}

/// How one HTTP exchange with the proxy ended, as the sender observed it.
#[derive(Debug)]
pub enum ProxyReply {
    /// The request could not be sent.
    SendFailed(reqwest::Error),
    /// The proxy answered with a status other than 200; `body` is the reply
    /// text, empty when it could not be read.
    Rejected { status: u16, body: String },
    /// Status 200 and a body decoded as a chat completion.
    Completed(ChatResponse),
    /// Status 200 but the body could not be decoded.
    Undecodable(reqwest::Error),
}

/// Model of the agents: where the proxy is, which model to ask for, and how
/// long a call may take.
pub struct LlmAgentsView {
    pub proxy_url: Seq<char>,
    pub model: Seq<char>,
    pub timeout_secs: u64,
}

/// Client settings of the two agents. The HTTP client itself is built by the
/// sender from `timeout_secs`.
pub struct LlmAgents {
    proxy_url: String,
    model: String,
    timeout_secs: u64,
}

impl View for LlmAgents {
    type V = LlmAgentsView;

    closed spec fn view(&self) -> LlmAgentsView {
        LlmAgentsView {
            proxy_url: self.proxy_url@,
            model: self.model@,
            timeout_secs: self.timeout_secs,
        }
    }
}

/// A request seen as its model and its (role, content) pairs in order.
pub open spec fn request_view(r: ChatRequest) -> (Seq<char>, Seq<(Seq<char>, Seq<char>)>) {
    (r.model@, r.messages@.map_values(|m: ChatMessage| (m.role@, m.content@)))
}

/// The request of an agent: the system prompt, then the text to process.
pub open spec fn agent_request(model: Seq<char>, system: Seq<char>, user: Seq<char>) -> (
    Seq<char>,
    Seq<(Seq<char>, Seq<char>)>,
) {
    (model, seq![(ROLE_SYSTEM@, system), (ROLE_USER@, user)])
}

/// What a call answers, given how the exchange ended, for every ending but a
/// failed send, whose answer names the proxy URL (see `LlmAgents::settle`).
pub open spec fn settle_spec(reply: ProxyReply) -> Option<Result<Seq<char>, AgentError>> {
    match reply {
        ProxyReply::SendFailed(_) => None,
        ProxyReply::Rejected { status, body } => Some(
            Err(AgentError::ProxyError { status, body }),
        ),
        ProxyReply::Completed(response) => if response.choices@.len() > 0 {
            Some(Ok(response.choices@[0].message.content@))
        } else {
            Some(Err(AgentError::EmptyResponse))
        },
        ProxyReply::Undecodable(e) => Some(Err(AgentError::Network(e))),
    }
}

/// A call's outcome with the text taken by its view.
pub open spec fn outcome_view(r: Result<String, AgentError>) -> Result<Seq<char>, AgentError> {
    match r {
        Ok(s) => Ok(s@),
        Err(e) => Err(e),
    }
}

impl LlmAgents {
    /// Settings from the configuration; the timeout defaults to 60 seconds.
    pub fn new(config: &AppConfig) -> (agents: LlmAgents)
        ensures
            agents@.proxy_url == config.llm_proxy_url@,
            agents@.model == config.llm_model@,
            agents@.timeout_secs == match config.llm_timeout_secs {
                Some(t) => t,
                None => DEFAULT_TIMEOUT_SECS,
            },
    {
        let timeout_secs = match config.llm_timeout_secs {
            Some(t) => t,
            None => DEFAULT_TIMEOUT_SECS,
        };
        LlmAgents {
            proxy_url: config.llm_proxy_url.clone(),
            model: config.llm_model.clone(),
            timeout_secs,
        }
    }

    /// The proxy endpoint the requests are posted to.
    pub fn proxy_url(&self) -> (url: &str)
        ensures
            url@ == self@.proxy_url,
    {
        self.proxy_url.as_str()
    }

    /// The model named in the requests.
    pub fn model(&self) -> (model: &str)
        ensures
            model@ == self@.model,
    {
        self.model.as_str()
    }

    /// Time limit of one call, in seconds.
    pub fn timeout_secs(&self) -> (secs: u64)
        ensures
            secs == self@.timeout_secs,
    {
        self.timeout_secs
    }

    /// The request for a system prompt and a user text: the configured model,
    /// the system message, then the user message.
    pub fn chat_request(&self, system: &str, user: &str) -> (r: ChatRequest)
        ensures
            request_view(r) == agent_request(self@.model, system@, user@),
    {
        let mut messages: Vec<ChatMessage> = Vec::new();
        messages.push(
            ChatMessage { role: String::from_str(ROLE_SYSTEM), content: String::from_str(system) },
        );
        messages.push(
            ChatMessage { role: String::from_str(ROLE_USER), content: String::from_str(user) },
        );
        let r = ChatRequest { model: self.model.clone(), messages };
        assert(request_view(r).1 =~= agent_request(self@.model, system@, user@).1);
        r
    }

    /// Request of the first agent: clean the raw transcript with the cleaner
    /// prompt.
    pub fn clean_transcript_request(&self, raw: &str) -> (r: ChatRequest)
        ensures
            request_view(r) == agent_request(self@.model, CLEANER_SYSTEM@, raw@),
    {
        self.chat_request(CLEANER_SYSTEM, raw)
    }

    /// Request of the second agent: summarize the cleaned text with the
    /// summarizer prompt.
    pub fn generate_summary_request(&self, clean_text: &str) -> (r: ChatRequest)
        ensures
            request_view(r) == agent_request(self@.model, SUMMARIZER_SYSTEM@, clean_text@),
    {
        self.chat_request(SUMMARIZER_SYSTEM, clean_text)
    }

    /// Whether a reply with this status is read as a completion (only 200);
    /// any other status makes the sender read the body as error text.
    pub fn accepts_status(status: u16) -> (b: bool)
        ensures
            b == (status == STATUS_OK),
    {
        status == STATUS_OK
    }

    /// The text of a completion: the content of its first choice, or
    /// `EmptyResponse` when it has none.
    pub fn first_choice_content(response: ChatResponse) -> (r: Result<String, AgentError>)
        ensures
            response.choices@.len() > 0 ==> (r matches Ok(s) && s@
                == response.choices@[0].message.content@),
            response.choices@.len() == 0 ==> r matches Err(AgentError::EmptyResponse),
    {
        if response.choices.len() == 0 {
            Err(AgentError::EmptyResponse)
        } else {
            let mut choices = response.choices;
            let first = choices.swap_remove(0);
            Ok(first.message.content)
        }
    }

    /// What a call answers, given how its exchange with the proxy ended:
    /// the first choice's text on success; otherwise, for a failed send, an
    /// unreachable proxy when it failed while connecting and the network
    /// error itself when not; the status and body for a rejected
    /// request, a network error for an undecodable body, and an empty
    /// response error for a completion without choices.
    pub fn settle(&self, reply: ProxyReply) -> (r: Result<String, AgentError>)
        ensures
            match reply {
                ProxyReply::SendFailed(e) => if connect_failure(e) {
                    r matches Err(AgentError::ProxyUnreachable(u)) && u@ == self@.proxy_url
                } else {
                    r == Err::<String, AgentError>(AgentError::Network(e))
                },
                _ => settle_spec(reply) == Some(outcome_view(r)),
            },
    {
        match reply {
            ProxyReply::SendFailed(e) => Err(AgentError::from_send_error(e, self.proxy_url.as_str())),
            ProxyReply::Rejected { status, body } => Err(AgentError::ProxyError { status, body }),
            ProxyReply::Completed(response) => LlmAgents::first_choice_content(response),
            ProxyReply::Undecodable(e) => Err(AgentError::Network(e)),
        }
    }
}

} // verus!
