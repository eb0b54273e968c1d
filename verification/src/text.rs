//! Text framing of a prompt: the combined instruction that carries a
//! conversation history beside the current prompt.

use vstd::prelude::*;
use vstd::string::*;

verus! {

/// The text that opens a framed instruction, before the history.
pub open spec fn history_opening() -> Seq<char> {
    "History: ###\""@
}

/// The text that stands between the history and the current prompt.
pub open spec fn prompt_opening() -> Seq<char> {
    "\"### | Current prompt: ###\""@
}

/// The text that closes a framed instruction.
pub open spec fn closing() -> Seq<char> {
    "\"###"@
}

/// History and current prompt as one instruction: two labelled, quoted segments.
pub open spec fn framed_prompt(history: Seq<char>, current: Seq<char>) -> Seq<char> {
    history_opening() + history + prompt_opening() + current + closing()
}

/// What is sent for a prompt: the current text as it is when there is no
/// history, the framed instruction when there is one.
pub open spec fn request_text(history: Option<Seq<char>>, current: Seq<char>) -> Seq<char> {
    match history {
        None => current,
        Some(h) => framed_prompt(h, current),
    }
}

/// The optional history of a prompt as plain text.
pub open spec fn history_text(history: Option<&str>) -> Option<Seq<char>> {
    match history {
        Some(h) => Some(h@),
        None => None,
    }
}

/// Whether `part` stands in `whole` at offset `at`, character for character.
pub open spec fn occurs_at(whole: Seq<char>, part: Seq<char>, at: int) -> bool {
    0 <= at && at + part.len() <= whole.len() && whole.subrange(at, at + part.len()) == part
}

/// Builds the framed instruction from a history and the current prompt.
pub fn frame_prompt(history: &str, current: &str) -> (text: String)
    ensures
        text@ == framed_prompt(history@, current@),
{
    let mut text = String::from_str("History: ###\"");
    text.append(history);
    text.append("\"### | Current prompt: ###\"");
    text.append(current);
    text.append("\"###");
    text
}

/// Builds the text of a request: `current` itself without a history, the framed
/// instruction with one (an empty history is still a history).
pub fn compose_request_text(history: Option<&str>, current: &str) -> (text: String)
    ensures
        text@ == request_text(history_text(history), current@),
{
    match history {
        Some(h) => frame_prompt(h, current),
        None => String::from_str(current),
    }
}

/// The current prompt stands verbatim in every request text: at the start when
/// there is no history, and after the history and its labels when there is one.
pub proof fn request_text_holds_prompt(history: Option<Seq<char>>, current: Seq<char>)
    ensures
        exists|at: int| occurs_at(request_text(history, current), current, at),
        history is None ==> request_text(history, current) == current,
{
    let whole = request_text(history, current);
    let at: int = match history {
        None => 0,
        Some(h) => (history_opening().len() + h.len() + prompt_opening().len()) as int,
    };
    assert(whole.subrange(at, at + current.len()) =~= current);
    assert(occurs_at(whole, current, at));
}

/// The history stands verbatim in a framed instruction, right after the opening
/// label, so that the two segments can be told apart.
pub proof fn framed_prompt_holds_history(history: Seq<char>, current: Seq<char>)
    ensures
        occurs_at(framed_prompt(history, current), history, history_opening().len() as int),
        framed_prompt(history, current).subrange(0, history_opening().len() as int)
            == history_opening(),
{
    let whole = framed_prompt(history, current);
    let at: int = history_opening().len() as int;
    assert(whole.subrange(at, at + history.len()) =~= history);
    assert(whole.subrange(0, at) =~= history_opening());
}

} // verus!
