//! The operations offered to the front end: relaying a prompt, the liveness
//! probe, the model's availability and a levelled log line.

use vstd::prelude::*;
use vstd::string::*;
use crate::availability::{availability_of, hosts_model, Availability};
use crate::ollama_integration::{outcome_of, test_ai_availability, AppError, MODEL};

verus! {

/// The level of a log line.
#[derive(Debug, Clone, Copy, PartialEq, Eq, Structural)]
pub enum InfoLevel {
    INFO,
    WARNING,
    ERROR,
}

impl InfoLevel {
    /// The level that a number stands for: 0 and 1 are the two milder levels,
    /// every other number is an error.
    pub open spec fn of_id(id: u8) -> InfoLevel {
        if id == 0 {
            InfoLevel::INFO
        } else if id == 1 {
            InfoLevel::WARNING
        } else {
            InfoLevel::ERROR
        }
    }

    /// The marker that opens a line of this level.
    pub open spec fn marker(self) -> Seq<char> {
        match self {
            InfoLevel::INFO => "<<|INFO|>>"@,
            InfoLevel::WARNING => "<<|WARN|>>"@,
            InfoLevel::ERROR => "<<|ERR|>>"@,
        }
    }

    /// Reads a level from its number.
    pub fn to_enum(id: u8) -> (level: Self)
        ensures
            level == Self::of_id(id),
    {
        match id {
            0 => InfoLevel::INFO,
            1 => InfoLevel::WARNING,
            _ => InfoLevel::ERROR,
        }
    }

    /// The marker that opens a line of this level, as a string.
    pub fn prefix(self) -> (marker: String)
        ensures
            marker@ == self.marker(),
    {
        match self {
            InfoLevel::INFO => String::from_str("<<|INFO|>>"),
            InfoLevel::WARNING => String::from_str("<<|WARN|>>"),
            InfoLevel::ERROR => String::from_str("<<|ERR|>>"),
        }
    }
}

/// The answer that every failed prompt gets, whatever went wrong.
pub open spec fn send_failure() -> Seq<char> {
    "Error while tried to send a request"@
}

/// The answer of the liveness probe.
pub open spec fn probe_answer() -> Seq<char> {
    "connected"@
}

/// The answer to every log command.
pub open spec fn log_answer() -> Seq<char> {
    "success"@
}

/// A log line: the level's marker, one space, the message.
pub open spec fn log_line(info_level: u8, message: Seq<char>) -> Seq<char> {
    InfoLevel::of_id(info_level).marker() + " "@ + message
}

/// What the front end gets for a prompt, given the client's result: the
/// completion text as it came, or the fixed failure text.
pub open spec fn relayed(outcome: Result<String, AppError>) -> Result<Seq<char>, Seq<char>> {
    match outcome {
        Ok(text) => Ok(text@),
        Err(_) => Err(send_failure()),
    }
}

/// What a log command gives: the line for the diagnostic stream and the answer
/// for the front end.
#[derive(Debug)]
pub struct LogOutput {
    pub line: String,
    pub reply: Result<String, String>,
}

/// Answers a prompt command from the client's result: a completion passes
/// through unchanged, and every failure becomes the same fixed text, its
/// description dropped. The front end cannot tell one failure from another.
pub fn send_prompt(outcome: Result<String, AppError>) -> (answer: Result<String, String>)
    ensures
        match answer {
            Ok(text) => relayed(outcome) == Ok::<Seq<char>, Seq<char>>(text@),
            Err(text) => relayed(outcome) == Err::<Seq<char>, Seq<char>>(text@),
        },
        outcome matches Ok(text) ==> answer == Ok::<String, String>(text),
{
    match outcome {
        Ok(text) => Ok(text),
        Err(_) => Err(String::from_str("Error while tried to send a request")),
    }
}

/// The liveness probe: always succeeds with the same answer, and asks nothing
/// of the service.
pub fn test_backend() -> (answer: Result<String, String>)
    ensures
        answer is Ok,
        answer->Ok_0@ == probe_answer(),
{
    Ok(String::from_str("connected"))
}

/// Whether the configured model is available, from the answer to the query for
/// the hosted models: true exactly when the query succeeded and one of the
/// reported names is the model's, letter for letter.
pub fn ai_status(listing: &Result<Vec<String>, String>) -> (available: bool)
    ensures
        available == (availability_of(*listing, MODEL@) == Availability::Available),
        available == match *listing {
            Ok(names) => hosts_model(names@, MODEL@),
            Err(_) => false,
        },
{
    test_ai_availability(listing)
}

/// Formats a log line and answers the command; the answer is the same for every
/// level and message.
pub fn log(info_level: u8, message: &str) -> (out: LogOutput)
    ensures
        out.line@ == log_line(info_level, message@),
        out.reply is Ok,
        out.reply->Ok_0@ == log_answer(),
{
    let level = InfoLevel::to_enum(info_level);
    let mut line = level.prefix();
    line.append(" ");
    line.append(message);
    LogOutput { line, reply: Ok(String::from_str("success")) }
}

/// Whatever the service answered, the front end gets exactly the completion
/// text when the exchange succeeded and the fixed failure text when it did
/// not: no answer of the service makes a prompt command fail in another way.
pub proof fn prompt_answer_follows_reply(reply: Result<String, String>)
    ensures
        match reply {
            Ok(text) => relayed(outcome_of(reply)) == Ok::<Seq<char>, Seq<char>>(text@),
            Err(_) => relayed(outcome_of(reply)) == Err::<Seq<char>, Seq<char>>(
                send_failure(),
            ),
        },
{
}

/// Every number from 2 on is read as the error level, so its line opens with
/// the error marker.
pub proof fn high_levels_are_errors(info_level: u8, message: Seq<char>)
    requires
        info_level >= 2,
    ensures
        InfoLevel::of_id(info_level) == InfoLevel::ERROR,
        log_line(info_level, message) == InfoLevel::ERROR.marker() + " "@ + message,
{
}

/// A log line opens with its level's marker and ends with the message.
pub proof fn log_line_frames_message(info_level: u8, message: Seq<char>)
    ensures
        log_line(info_level, message).len() == InfoLevel::of_id(info_level).marker().len() + 1
            + message.len(),
        log_line(info_level, message).subrange(
            0,
            InfoLevel::of_id(info_level).marker().len() as int,
        ) == InfoLevel::of_id(info_level).marker(),
        log_line(info_level, message).subrange(
            InfoLevel::of_id(info_level).marker().len() as int + 1,
            log_line(info_level, message).len() as int,
        ) == message,
{
    reveal_strlit(" ");
    let marker = InfoLevel::of_id(info_level).marker();
    let line = log_line(info_level, message);
    assert(line.subrange(0, marker.len() as int) =~= marker);
    assert(line.subrange(marker.len() as int + 1, line.len() as int) =~= message);
}

} // verus!
