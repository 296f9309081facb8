//! The text generator's side of the job: the request sent to the completion
//! endpoint and the reading of its answer.

use vstd::prelude::*;
use vstd::string::StringExecFns;
use crate::error::{GenerationFailure, JobError, TransportFailure};
use crate::prompt::{render_prompt, rendered_prompt, SYSTEM_INSTRUCTION};

verus! {

/// The most tokens the model may produce for one greeting.
pub const MAX_TOKENS: u32 = 150;

/// The sampling temperature, in tenths: 8 stands for 0.8.
pub const TEMPERATURE_TENTHS: u32 = 8;

/// Seconds after which the generation call is abandoned.
pub const GENERATION_TIMEOUT_SECS: u64 = 30;

/// Who speaks in one turn of the conversation.
#[derive(Clone, Copy, Debug, PartialEq, Eq, Structural)]
pub enum Role {
    System,
    User,
}

impl Role {
    /// The role's name as the endpoint expects it.
    pub open spec fn wire_name(self) -> Seq<char> {
        match self {
            Role::System => "system"@,
            Role::User => "user"@,
        }
    }

    pub fn as_str(&self) -> (name: &'static str)
        ensures
            name@ == self.wire_name(),
    {
        match self {
            Role::System => "system",
            Role::User => "user",
        }
    }
}

/// One turn of the conversation.
#[derive(Clone, Debug, PartialEq, Eq)]
pub struct ChatMessage {
    pub role: Role,
    pub content: String,
}

/// A turn as contracts see it.
pub struct ChatMessageView {
    pub role: Role,
    pub content: Seq<char>,
}

impl View for ChatMessage {
    type V = ChatMessageView;

    open spec fn view(&self) -> ChatMessageView {
        ChatMessageView { role: self.role, content: self.content@ }
    }
}

/// The body of the generation call.
#[derive(Clone, Debug, PartialEq, Eq)]
pub struct GenerationRequest {
    pub model: String,
    pub messages: Vec<ChatMessage>,
    pub max_tokens: u32,
    pub temperature_tenths: u32,
}

/// A request body as contracts see it.
pub struct GenerationRequestView {
    pub model: Seq<char>,
    pub messages: Seq<ChatMessageView>,
    pub max_tokens: u32,
    pub temperature_tenths: u32,
}

impl View for GenerationRequest {
    type V = GenerationRequestView;

    open spec fn view(&self) -> GenerationRequestView {
        GenerationRequestView {
            model: self.model@,
            messages: Seq::new(self.messages@.len(), |i: int| self.messages@[i]@),
            max_tokens: self.max_tokens,
            temperature_tenths: self.temperature_tenths,
        }
    }
}

/// The request for a greeting in `lang` from `model`: the fixed system turn,
/// then the rendered prompt as the user turn, with the fixed token budget and
/// temperature.
pub open spec fn generation_request(model: Seq<char>, lang: Seq<char>) -> GenerationRequestView {
    GenerationRequestView {
        model,
        messages: seq![
            ChatMessageView { role: Role::System, content: SYSTEM_INSTRUCTION@ },
            ChatMessageView { role: Role::User, content: rendered_prompt(lang) },
        ],
        max_tokens: MAX_TOKENS,
        temperature_tenths: TEMPERATURE_TENTHS,
    }
}

/// Builds the body of the generation call.
pub fn build_generation_request(model: &str, lang: &str) -> (request: GenerationRequest)
    ensures
        request@ == generation_request(model@, lang@),
{
    let system = ChatMessage { role: Role::System, content: String::from_str(SYSTEM_INSTRUCTION) };
    let user = ChatMessage { role: Role::User, content: render_prompt(lang) };
    let mut messages: Vec<ChatMessage> = Vec::new();
    messages.push(system);
    messages.push(user);
    let request = GenerationRequest {
        model: String::from_str(model),
        messages,
        max_tokens: MAX_TOKENS,
        temperature_tenths: TEMPERATURE_TENTHS,
    };
    assert(request@.messages =~= generation_request(model@, lang@).messages);
    request
}

/// Everything the caller needs to make the generation call: one POST of
/// `request` to `url`, with `credential` as bearer token, given up after
/// `timeout_secs` seconds.
#[derive(Clone, Debug, PartialEq, Eq)]
pub struct GenerationCall {
    pub url: String,
    pub credential: String,
    pub request: GenerationRequest,
    pub timeout_secs: u64,
}

/// A generation call as contracts see it.
pub struct GenerationCallView {
    pub url: Seq<char>,
    pub credential: Seq<char>,
    pub request: GenerationRequestView,
    pub timeout_secs: u64,
}

impl View for GenerationCall {
    type V = GenerationCallView;

    open spec fn view(&self) -> GenerationCallView {
        GenerationCallView {
            url: self.url@,
            credential: self.credential@,
            request: self.request@,
            timeout_secs: self.timeout_secs,
        }
    }
}

/// The generation call for the given endpoint, model, credential and language.
pub open spec fn generation_call(
    url: Seq<char>,
    model: Seq<char>,
    credential: Seq<char>,
    lang: Seq<char>,
) -> GenerationCallView {
    GenerationCallView {
        url,
        credential,
        request: generation_request(model, lang),
        timeout_secs: GENERATION_TIMEOUT_SECS,
    }
}

/// Prepares the generation call.
pub fn prepare_generation(url: &str, model: &str, credential: &str, lang: &str) -> (call:
    GenerationCall)
    ensures
        call@ == generation_call(url@, model@, credential@, lang@),
{
    GenerationCall {
        url: String::from_str(url),
        credential: String::from_str(credential),
        request: build_generation_request(model, lang),
        timeout_secs: GENERATION_TIMEOUT_SECS,
    }
}

/// One candidate text of the endpoint's answer.
#[derive(Clone, Debug, PartialEq, Eq)]
pub struct Choice {
    pub content: String,
}

/// The endpoint's answer: its candidates, in the order it gave them.
#[derive(Clone, Debug, PartialEq, Eq)]
pub struct GenerationResponse {
    pub choices: Vec<Choice>,
}

impl View for GenerationResponse {
    type V = Seq<Seq<char>>;

    /// The candidates' texts, in order.
    open spec fn view(&self) -> Seq<Seq<char>> {
        Seq::new(self.choices@.len(), |i: int| self.choices@[i].content@)
    }
}

/// How the generation call ended.
#[derive(Clone, Debug, PartialEq, Eq)]
pub enum GenerationOutcome {
    /// The endpoint answered and the answer was read.
    Replied(GenerationResponse),
    /// The endpoint answered, but not in the expected shape.
    Unparseable,
    /// No answer was had.
    Failed(TransportFailure),
}

/// An outcome as contracts see it: the answer by its candidates' texts.
pub enum GenerationOutcomeView {
    Replied(Seq<Seq<char>>),
    Unparseable,
    Failed(TransportFailure),
}

impl View for GenerationOutcome {
    type V = GenerationOutcomeView;

    open spec fn view(&self) -> GenerationOutcomeView {
        match self {
            GenerationOutcome::Replied(response) => GenerationOutcomeView::Replied(response@),
            GenerationOutcome::Unparseable => GenerationOutcomeView::Unparseable,
            GenerationOutcome::Failed(failure) => GenerationOutcomeView::Failed(*failure),
        }
    }
}

/// The greeting that a list of candidates yields: the first one, unchanged.
/// An empty list yields a content error; later candidates are never looked at.
pub open spec fn first_choice(choices: Seq<Seq<char>>) -> Result<Seq<char>, JobError> {
    if choices.len() == 0 {
        Err(JobError::GenerationContent)
    } else {
        Ok(choices[0])
    }
}

/// What the generation stage hands on for each way its call can end.
pub open spec fn generation_verdict(outcome: GenerationOutcomeView) -> Result<
    Seq<char>,
    JobError,
> {
    match outcome {
        GenerationOutcomeView::Replied(choices) => first_choice(choices),
        GenerationOutcomeView::Unparseable => Err(
            JobError::GenerationTransport(GenerationFailure::Unparseable),
        ),
        GenerationOutcomeView::Failed(TransportFailure::Network) => Err(
            JobError::GenerationTransport(GenerationFailure::Network),
        ),
        GenerationOutcomeView::Failed(TransportFailure::Timeout) => Err(
            JobError::GenerationTransport(GenerationFailure::Timeout),
        ),
    }
}

/// The view of a text result: its characters, or the error as it is.
pub open spec fn text_result_view(result: Result<String, JobError>) -> Result<
    Seq<char>,
    JobError,
> {
    match result {
        Ok(text) => Ok(text@),
        Err(error) => Err(error),
    }
}

/// Takes the first candidate's text from an answer.
pub fn extract_first_choice(response: &GenerationResponse) -> (result: Result<String, JobError>)
    ensures
        text_result_view(result) == first_choice(response@),
{
    if response.choices.len() == 0 {
        Err(JobError::GenerationContent)
    } else {
        Ok(response.choices[0].content.clone())
    }
}

/// Judges how the generation call ended: the greeting to dispatch, or the
/// error that ends the job.
pub fn judge_generation(outcome: &GenerationOutcome) -> (result: Result<String, JobError>)
    ensures
        text_result_view(result) == generation_verdict(outcome@),
{
    match outcome {
        GenerationOutcome::Replied(response) => extract_first_choice(response),
        GenerationOutcome::Unparseable => Err(
            JobError::GenerationTransport(GenerationFailure::Unparseable),
        ),
        GenerationOutcome::Failed(TransportFailure::Network) => Err(
            JobError::GenerationTransport(GenerationFailure::Network),
        ),
        GenerationOutcome::Failed(TransportFailure::Timeout) => Err(
            JobError::GenerationTransport(GenerationFailure::Timeout),
        ),
    }
}

} // verus!
