//! The completion client and the response validator: what is sent to the
//! model, and what is made of its answer.

use crate::error::CommitauraError;
use crate::prompt::{PromptSpec, TaskKind};
use crate::text::{trim, trimmed};
use vstd::prelude::*;

verus! {

/// How the model samples its answer. Temperature and nucleus mass are held in
/// tenths, so that 7 stands for 0.7.
#[derive(Clone, Copy, Debug, PartialEq, Eq, Structural)]
pub struct SamplingConfig {
    /// The most tokens that the answer may have.
    pub max_tokens: u32,
    /// The sampling temperature, in tenths.
    pub temperature_tenths: u32,
    /// The nucleus sampling mass, in tenths.
    pub top_p_tenths: u32,
    /// How many candidate answers are asked for.
    pub candidates: u32,
    /// Whether the answer is streamed.
    pub stream: bool,
}

/// The most tokens that the answer to a task may have.
pub open spec fn max_output_tokens(kind: TaskKind) -> u32 {
    match kind {
        TaskKind::CommitMessage => 100,
        TaskKind::ReadmeUpdate => 500,
        TaskKind::BranchAndPr => 200,
    }
}

/// The sampling of a task: its own limit on the answer, temperature 0.7, the
/// whole nucleus, one candidate, no streaming.
pub open spec fn sampling_of(kind: TaskKind) -> SamplingConfig {
    SamplingConfig {
        max_tokens: max_output_tokens(kind),
        temperature_tenths: 7,
        top_p_tenths: 10,
        candidates: 1,
        stream: false,
    }
}

impl SamplingConfig {
    /// The sampling of a task.
    pub fn for_task(kind: TaskKind) -> (c: SamplingConfig)
        ensures
            c == sampling_of(kind),
    {
        let max_tokens: u32 = match kind {
            TaskKind::CommitMessage => 100,
            TaskKind::ReadmeUpdate => 500,
            TaskKind::BranchAndPr => 200,
        };
        SamplingConfig {
            max_tokens,
            temperature_tenths: 7,
            top_p_tenths: 10,
            candidates: 1,
            stream: false,
        }
    }
}

/// The model that completions are asked of.
pub open spec fn model_text() -> Seq<char> {
    "gpt-4o"@
}

/// The model that completions are asked of.
pub fn model_name() -> (s: String)
    ensures
        s@ == model_text(),
{
    "gpt-4o".to_owned()
}

/// One request to the model, with nothing left open.
#[derive(Debug)]
pub struct CompletionRequest {
    /// The model's id.
    pub model: String,
    /// How the answer is sampled.
    pub sampling: SamplingConfig,
    /// The sequences at which the model stops writing.
    pub stop: Vec<String>,
    /// The messages.
    pub prompt: PromptSpec,
}

impl CompletionRequest {
    /// The request of a task: the model, the task's sampling, no stop sequence,
    /// and the prompt.
    pub fn for_task(kind: TaskKind, prompt: PromptSpec) -> (r: CompletionRequest)
        ensures
            r.model@ == model_text(),
            r.sampling == sampling_of(kind),
            r.stop@.len() == 0,
            r.prompt == prompt,
    {
        CompletionRequest {
            model: model_name(),
            sampling: SamplingConfig::for_task(kind),
            stop: Vec::new(),
            prompt,
        }
    }
}

/// What the first choice of an answer says: `None` where the request failed,
/// the answer holds no choice, or the first choice holds no message.
pub open spec fn first_choice(answer: Result<Vec<Option<String>>, String>) -> Option<Seq<char>> {
    match answer {
        Ok(choices) => if choices@.len() > 0 {
            match choices@[0] {
                Some(content) => Some(content@),
                None => None,
            }
        } else {
            None
        },
        Err(_) => None,
    }
}

/// What the failure of a request says: the reason given where the request
/// itself failed, else what the answer lacks.
pub open spec fn completion_failure(answer: Result<Vec<Option<String>>, String>) -> Seq<char> {
    match answer {
        Ok(choices) => if choices@.len() == 0 {
            no_choice_text()
        } else {
            no_message_text()
        },
        Err(reason) => reason@,
    }
}

/// Turns what came back from the model provider into the text of the answer.
/// `answer` holds the message content of each choice, `None` for a choice
/// without a message, or the reason why the request failed. Every way in which
/// no text is had is the same failure; the reason tells them apart.
pub fn read_completion(answer: Result<Vec<Option<String>>, String>) -> (r: Result<
    String,
    CommitauraError,
>)
    ensures
        match first_choice(answer) {
            Some(t) => r matches Ok(s) && s@ == t,
            None => {
                &&& r matches Err(CommitauraError::CompletionFailed(d))
                &&& d@ == completion_failure(answer)
            },
        },
{
    match answer {
        Ok(mut choices) => {
            if choices.len() == 0 {
                return Err(CommitauraError::CompletionFailed(no_choice_detail()));
            }
            match choices.swap_remove(0) {
                Some(content) => Ok(content),
                None => Err(CommitauraError::CompletionFailed(no_message_detail())),
            }
        },
        Err(reason) => Err(CommitauraError::CompletionFailed(reason)),
    }
}

/// Checks the text of an answer before anyone sees it: an answer that holds
/// nothing but whitespace is refused, any other is handed on without the
/// whitespace around it.
pub fn validate_completion(raw: &str) -> (r: Result<String, CommitauraError>)
    ensures
        match r {
            Ok(s) => s@ == trimmed(raw@) && s@.len() > 0,
            Err(e) => trimmed(raw@).len() == 0 && e == CommitauraError::EmptyCompletion,
        },
{
    let text = trim(raw);
    if text.as_str().is_empty() {
        Err(CommitauraError::EmptyCompletion)
    } else {
        Ok(text)
    }
}

/// What the failure of a request says whose answer holds no choice.
pub open spec fn no_choice_text() -> Seq<char> {
    "No choice in API response"@
}

/// What the failure of a request says whose first choice holds no message.
pub open spec fn no_message_text() -> Seq<char> {
    "No message in API response"@
}

/// The detail of the failure of a request whose answer holds no choice.
fn no_choice_detail() -> (detail: String)
    ensures
        detail@ == no_choice_text(),
{
    "No choice in API response".to_owned()
}

/// The detail of the failure of a request whose first choice holds no
/// message.
fn no_message_detail() -> (detail: String)
    ensures
        detail@ == no_message_text(),
{
    "No message in API response".to_owned()
}

} // verus!
