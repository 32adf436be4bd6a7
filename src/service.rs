//! The service settings, the outbound completion call, and the result of a rewrite.

use vstd::prelude::*;
use vstd::string::StringExecFns;
use crate::improvements::{extract_improvements, improvement_notes, texts};
use crate::prompt::{get_polish_prompt, prompt_of};
use crate::text::{trim_text, trimmed};

verus! {

broadcast use vstd::string::group_string_axioms;

/// A text to rewrite, with the name of the resume section it belongs to.
#[derive(Clone, Debug, PartialEq, Eq)]
pub struct PolishRequest {
    pub text: String,
    pub section_type: String,
}

/// The text as it came, its rewrite, and notes on what the rewrite changed.
#[derive(Clone, Debug, PartialEq, Eq)]
pub struct PolishResponse {
    pub original: String,
    pub polished: String,
    pub improvements: Vec<String>,
}

/// A setting that the service cannot run without.
#[derive(Clone, Copy, Debug, PartialEq, Eq, Structural)]
pub enum ConfigKey {
    ApiBase,
    ApiKey,
    Model,
}

/// Why a text could not be rewritten.
#[derive(Clone, Debug, PartialEq, Eq)]
pub enum ServiceError {
    /// A setting was absent when the service was set up; the first one missing.
    ConfigMissing(ConfigKey),
    /// The completion endpoint could not be reached; the transport's description.
    RemoteUnavailable(String),
    /// The endpoint answered with a status outside the success range, and this body.
    RemoteRejected { status: u16, body: String },
    /// The endpoint's answer was not a completion; the parser's description.
    RemoteMalformed(String),
}

/// One message of a chat completion request.
#[derive(Clone, Debug, PartialEq, Eq)]
pub struct ChatMessage {
    pub role: String,
    pub content: String,
}

/// Everything that goes out in the one call to the completion endpoint.
#[derive(Clone, Debug, PartialEq, Eq)]
pub struct CompletionCall {
    pub url: String,
    pub authorization: String,
    pub content_type: String,
    pub model: String,
    pub messages: Vec<ChatMessage>,
    pub max_tokens: u32,
}

/// What came back from the completion endpoint.
#[derive(Clone, Debug, PartialEq, Eq)]
pub enum RemoteReply {
    /// No answer came; the transport's description of the failure.
    Unreachable(String),
    /// A status outside the success range, with the body's text if it could be read.
    Rejected { status: u16, body: Option<String> },
    /// A success status whose body is not a completion; the parser's description.
    Malformed(String),
    /// A completion: the content of each choice's message, in order.
    Completed(Vec<String>),
}

/// The settings of the rewriting service, fixed when it is set up.
#[derive(Clone, Debug, PartialEq, Eq)]
pub struct AIService {
    pub api_base: String,
    pub api_key: String,
    pub model: String,
}

/// The most output tokens a completion may use.
pub const MAX_TOKENS: u32 = 2000;

/// The persona given to the completion model.
pub const SYSTEM_PROMPT: &'static str = "You are a senior resume consultant who specializes in helping job seekers optimize their resume content and improve resume quality and competitiveness.";

/// The path of the completion operation, below the endpoint's base address.
pub const COMPLETIONS_PATH: &'static str = "/chat/completions";

/// The scheme word that precedes the credential in the authorization header.
pub const BEARER_PREFIX: &'static str = "Bearer ";

/// The body text reported when the endpoint's error body could not be read.
pub const UNKNOWN_ERROR: &'static str = "Unknown error";

/// The media type of the request body.
pub const JSON_MEDIA_TYPE: &'static str = "application/json";

/// An HTTP status in the success range.
pub open spec fn success_status(status: u16) -> bool {
    200 <= status && status < 300
}

/// Tests whether an HTTP status is in the success range, and so whether the
/// answer's body is to be read as a completion rather than as an error text.
pub fn is_success_status(status: u16) -> (r: bool)
    ensures
        r == success_status(status),
{
    200 <= status && status < 300
}

/// The body text reported for a rejected call.
pub open spec fn rejection_text(body: Option<String>) -> Seq<char> {
    match body {
        Some(t) => t@,
        None => UNKNOWN_ERROR@,
    }
}

/// The rewrite taken from a completion: the first choice's content without its
/// surrounding whitespace, or the original text when there is no choice.
pub open spec fn polished_of(original: Seq<char>, choices: Seq<String>) -> Seq<char> {
    if choices.len() == 0 {
        original
    } else {
        trimmed(choices[0]@)
    }
}

/// The first setting, in the order base address, credential, model, that is absent.
pub open spec fn first_missing(
    api_base: Option<String>,
    api_key: Option<String>,
    model: Option<String>,
) -> ConfigKey {
    if api_base is None {
        ConfigKey::ApiBase
    } else if api_key is None {
        ConfigKey::ApiKey
    } else {
        ConfigKey::Model
    }
}

impl AIService {
    /// Sets the service up from its three settings; it fails on the first one absent.
    pub fn new(api_base: Option<String>, api_key: Option<String>, model: Option<String>) -> (r:
        Result<AIService, ServiceError>)
        ensures
            (api_base is Some && api_key is Some && model is Some) <==> r is Ok,
            r is Ok ==> r->Ok_0 == (AIService {
                api_base: api_base->Some_0,
                api_key: api_key->Some_0,
                model: model->Some_0,
            }),
            r is Err ==> r->Err_0 == ServiceError::ConfigMissing(
                first_missing(api_base, api_key, model),
            ),
    {
        match (api_base, api_key, model) {
            (Some(api_base), Some(api_key), Some(model)) => Ok(AIService { api_base, api_key, model }),
            (None, _, _) => Err(ServiceError::ConfigMissing(ConfigKey::ApiBase)),
            (Some(_), None, _) => Err(ServiceError::ConfigMissing(ConfigKey::ApiKey)),
            (Some(_), Some(_), None) => Err(ServiceError::ConfigMissing(ConfigKey::Model)),
        }
    }

    /// The call that asks the completion endpoint to rewrite `request`: a post to
    /// the base address's completion path, with the credential as a bearer token,
    /// the configured model, the consultant persona, then the prompt.
    pub fn completion_call(&self, request: &PolishRequest) -> (c: CompletionCall)
        ensures
            c.url@ == self.api_base@ + COMPLETIONS_PATH@,
            c.authorization@ == BEARER_PREFIX@ + self.api_key@,
            c.content_type@ == JSON_MEDIA_TYPE@,
            c.model@ == self.model@,
            c.messages.len() == 2,
            c.messages[0].role@ == "system"@,
            c.messages[0].content@ == SYSTEM_PROMPT@,
            c.messages[1].role@ == "user"@,
            c.messages[1].content@ == prompt_of(request.text@, request.section_type@),
            c.max_tokens == MAX_TOKENS,
    {
        let url = self.api_base.clone().concat(COMPLETIONS_PATH);
        let authorization = String::from_str(BEARER_PREFIX).concat(self.api_key.as_str());
        let system = ChatMessage {
            role: String::from_str("system"),
            content: String::from_str(SYSTEM_PROMPT),
        };
        let user = ChatMessage {
            role: String::from_str("user"),
            content: get_polish_prompt(request.text.as_str(), request.section_type.as_str()),
        };
        let messages = vec![system, user];
        CompletionCall {
            url,
            authorization,
            content_type: String::from_str(JSON_MEDIA_TYPE),
            model: self.model.clone(),
            messages,
            max_tokens: MAX_TOKENS,
        }
    }
}

/// Turns what the completion endpoint sent back for `request` into the result
/// of the rewrite. Each failure of the call is its own error, never retried or
/// masked; a completion without choices leaves the text as it was.
pub fn finish_polish(request: PolishRequest, reply: RemoteReply) -> (r: Result<
    PolishResponse,
    ServiceError,
>)
    ensures
        match reply {
            RemoteReply::Unreachable(d) => r == Err::<PolishResponse, ServiceError>(
                ServiceError::RemoteUnavailable(d),
            ),
            RemoteReply::Rejected { status, body } => r is Err && r->Err_0 is RemoteRejected
                && r->Err_0->RemoteRejected_status == status && r->Err_0->RemoteRejected_body@
                == rejection_text(body),
            RemoteReply::Malformed(d) => r == Err::<PolishResponse, ServiceError>(
                ServiceError::RemoteMalformed(d),
            ),
            RemoteReply::Completed(choices) => r is Ok && r->Ok_0.original == request.text
                && r->Ok_0.polished@ == polished_of(request.text@, choices@) && texts(
                r->Ok_0.improvements@,
            ) == improvement_notes(request.text@, r->Ok_0.polished@),
        },
{
    match reply {
        RemoteReply::Unreachable(d) => Err(ServiceError::RemoteUnavailable(d)),
        RemoteReply::Rejected { status, body } => {
            let text = match body {
                Some(t) => t,
                None => String::from_str(UNKNOWN_ERROR),
            };
            Err(ServiceError::RemoteRejected { status, body: text })
        },
        RemoteReply::Malformed(d) => Err(ServiceError::RemoteMalformed(d)),
        RemoteReply::Completed(choices) => {
            let polished = if choices.len() == 0 {
                request.text.clone()
            } else {
                trim_text(choices[0].as_str())
            };
            let improvements = extract_improvements(request.text.as_str(), polished.as_str());
            Ok(PolishResponse { original: request.text, polished, improvements })
        },
    }
}

} // verus!
