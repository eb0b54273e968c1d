//! The client of the completion service: one request with a model name and a
//! prompt text, one completion text back.

use vstd::prelude::*;
use vstd::string::*;
use crate::availability::{availability_of, classify_listing, hosts_model, Availability};
use crate::text::{compose_request_text, history_text, request_text};

verus! {

/// The name of the model that every request of this client addresses.
pub const MODEL: &'static str = "llama3.1:latest";

/// The one kind of failure of this client.
#[derive(Debug)]
pub enum AppError {
    /// The service could not be reached, answered with an error, or sent what
    /// could not be read; the text describes which.
    OllamaError(String),
}

impl AppError {
    /// The description that the failure carries.
    pub open spec fn description(self) -> Seq<char> {
        match self {
            AppError::OllamaError(text) => text@,
        }
    }

    /// The failure as a line for a person to read.
    pub open spec fn rendered(self) -> Seq<char> {
        "Ollama API error: "@ + self.description()
    }

    /// Renders the failure as a line for a person to read.
    pub fn message(&self) -> (line: String)
        ensures
            line@ == self.rendered(),
    {
        let mut line = String::from_str("Ollama API error: ");
        match self {
            AppError::OllamaError(text) => line.append(text.as_str()),
        }
        line
    }
}

/// What is asked of the service: a model and the text handed to it.
#[derive(Debug)]
pub struct GenerationCall {
    pub model: String,
    pub prompt: String,
}

/// Prepares the single request of a prompt: it addresses `MODEL` and carries
/// `text_prompt` as it is when there is no history, and history and prompt in
/// the framed instruction when there is one.
pub fn send_ollama_request(history: Option<&str>, text_prompt: &str) -> (call: GenerationCall)
    ensures
        call.model@ == MODEL@,
        call.prompt@ == request_text(history_text(history), text_prompt@),
{
    GenerationCall {
        model: String::from_str(MODEL),
        prompt: compose_request_text(history, text_prompt),
    }
}

/// The client's result for an answer of the service: the completion text as it
/// came, or the one failure kind with the description of what went wrong.
pub open spec fn outcome_of(reply: Result<String, String>) -> Result<String, AppError> {
    match reply {
        Ok(text) => Ok(text),
        Err(description) => Err(AppError::OllamaError(description)),
    }
}

/// Turns the service's answer into the client's result. Every failure, of
/// whatever sort, comes out as the one failure kind.
pub fn generate_response(reply: Result<String, String>) -> (outcome: Result<String, AppError>)
    ensures
        outcome == outcome_of(reply),
{
    match reply {
        Ok(text) => Ok(text),
        Err(description) => Err(AppError::OllamaError(description)),
    }
}

/// Whether the configured model is available: true exactly when the query
/// succeeded and one of the reported names is `MODEL`, letter for letter. A
/// failed query counts as not available.
pub fn test_ai_availability(listing: &Result<Vec<String>, String>) -> (available: bool)
    ensures
        available == (availability_of(*listing, MODEL@) == Availability::Available),
        available == match *listing {
            Ok(names) => hosts_model(names@, MODEL@),
            Err(_) => false,
        },
{
    match classify_listing(listing, MODEL) {
        Availability::Available => true,
        Availability::Missing => false,
        Availability::Unreachable => false,
    }
}

} // verus!
