//! The client of the chat service: one request with a model name and a single
//! user message, one answer back, whose text may be absent.

use vstd::prelude::*;
use vstd::string::*;
use crate::availability::{availability_of, classify_listing, hosts_model, Availability};

verus! {

/// The name of the model that every request of this client addresses.
pub const MODEL: &'static str = "llama3.1";

/// The one kind of failure of this client.
#[derive(Debug)]
pub enum AppError {
    /// The service could not be reached, answered with an error, or sent what
    /// could not be read; the text describes which.
    GenAIError(String),
}

impl AppError {
    /// The description that the failure carries.
    pub open spec fn description(self) -> Seq<char> {
        match self {
            AppError::GenAIError(text) => text@,
        }
    }

    /// The failure as a line for a person to read.
    pub open spec fn rendered(self) -> Seq<char> {
        "GenAI API error: "@ + self.description()
    }

    /// Renders the failure as a line for a person to read.
    pub fn message(&self) -> (line: String)
        ensures
            line@ == self.rendered(),
    {
        let mut line = String::from_str("GenAI API error: ");
        match self {
            AppError::GenAIError(text) => line.append(text.as_str()),
        }
        line
    }
}

/// What is asked of the service: a model and the one user message of the chat.
#[derive(Debug)]
pub struct ChatCall {
    pub model: String,
    pub user_message: String,
}

/// The completion text of an answer: the text where the answer holds one, the
/// empty text where it holds none.
pub open spec fn completion_text(content: Option<String>) -> Seq<char> {
    match content {
        Some(text) => text@,
        None => Seq::<char>::empty(),
    }
}

/// Prepares the single request of a prompt: it addresses `MODEL` and carries
/// `text_prompt`, unchanged, as its only message.
pub fn send_ai_request(text_prompt: &str) -> (call: ChatCall)
    ensures
        call.model@ == MODEL@,
        call.user_message@ == text_prompt@,
{
    ChatCall { model: String::from_str(MODEL), user_message: String::from_str(text_prompt) }
}

/// Turns the service's answer into the client's result. An answer without text
/// is a success with the empty text; a failure of any sort becomes the one
/// failure kind with its description.
pub fn generate_response(reply: Result<Option<String>, String>) -> (outcome: Result<
    String,
    AppError,
>)
    ensures
        match reply {
            Ok(content) => outcome is Ok && outcome->Ok_0@ == completion_text(content),
            Err(description) => outcome == Err::<String, AppError>(
                AppError::GenAIError(description),
            ),
        },
        reply matches Ok(Some(text)) ==> outcome == Ok::<String, AppError>(text),
{
    match reply {
        Ok(Some(text)) => Ok(text),
        Ok(None) => Ok(String::new()),
        Err(description) => Err(AppError::GenAIError(description)),
    }
}

/// Whether the configured model is available: true exactly when the query
/// succeeded and one of the reported names is `MODEL`, letter for letter. A
/// failed query counts as not available.
pub fn test_ai_availability(listing: &Result<Vec<String>, String>) -> (available: bool)
    ensures
        available == (availability_of(*listing, MODEL@) == Availability::Available),
        available == match *listing {
            Ok(names) => hosts_model(names@, MODEL@),
            Err(_) => false,
        },
{
    match classify_listing(listing, MODEL) {
        Availability::Available => true,
        Availability::Missing => false,
        Availability::Unreachable => false,
    }
}

} // verus!
