use prompt_relay::ai_integration;
use prompt_relay::availability::{classify_listing, contains_name, Availability};
use prompt_relay::ollama_integration;
use prompt_relay::text::{compose_request_text, frame_prompt};

#[test]
fn ollama_request_addresses_the_configured_model() {
    assert_eq!(ollama_integration::MODEL, "llama3.1:latest");
    let call = ollama_integration::send_ollama_request(None, "Why is the sky blue?");
    assert_eq!(call.model, "llama3.1:latest");
    assert_eq!(call.prompt, "Why is the sky blue?");
}

#[test]
fn ollama_request_frames_history_and_prompt() {
    let call = ollama_integration::send_ollama_request(Some("a"), "b");
    assert_eq!(call.prompt, "History: ###\"a\"### | Current prompt: ###\"b\"###");
}

#[test]
fn ollama_response_keeps_the_text() {
    let outcome = ollama_integration::generate_response(Ok(String::from("Hello!")));
    assert!(matches!(outcome, Ok(ref text) if text == "Hello!"));
}

#[test]
fn ollama_failure_keeps_the_description() {
    let outcome = ollama_integration::generate_response(Err(String::from("Reqwest error")));
    match outcome {
        Err(ollama_integration::AppError::OllamaError(description)) => {
            assert_eq!(description, "Reqwest error")
        }
        Ok(_) => panic!("a failed exchange gave a completion"),
    }
}

#[test]
fn ollama_error_message_has_its_label() {
    let error = ollama_integration::AppError::OllamaError(String::from("Reqwest error"));
    assert_eq!(error.message(), "Ollama API error: Reqwest error");
}

#[test]
fn ollama_availability_follows_the_listing() {
    let listed: Result<Vec<String>, String> = Ok(vec![String::from("llama3.1:latest")]);
    let other: Result<Vec<String>, String> = Ok(vec![String::from("llama3.1")]);
    let failed: Result<Vec<String>, String> = Err(String::from("down"));
    assert!(ollama_integration::test_ai_availability(&listed));
    assert!(!ollama_integration::test_ai_availability(&other));
    assert!(!ollama_integration::test_ai_availability(&failed));
}

#[test]
fn chat_request_carries_the_prompt_unchanged() {
    assert_eq!(ai_integration::MODEL, "llama3.1");
    let call = ai_integration::send_ai_request("Tell me a joke");
    assert_eq!(call.model, "llama3.1");
    assert_eq!(call.user_message, "Tell me a joke");
}

#[test]
fn chat_response_without_text_is_empty() {
    let outcome = ai_integration::generate_response(Ok(None));
    assert!(matches!(outcome, Ok(ref text) if text.is_empty()));
}

#[test]
fn chat_response_keeps_the_text() {
    let outcome = ai_integration::generate_response(Ok(Some(String::from("Hello!"))));
    assert!(matches!(outcome, Ok(ref text) if text == "Hello!"));
}

#[test]
fn chat_failure_keeps_the_description() {
    let outcome = ai_integration::generate_response(Err(String::from("no route")));
    match outcome {
        Err(ai_integration::AppError::GenAIError(description)) => {
            assert_eq!(description, "no route")
        }
        Ok(_) => panic!("a failed exchange gave a completion"),
    }
}

#[test]
fn chat_error_message_has_its_label() {
    let error = ai_integration::AppError::GenAIError(String::from("no route"));
    assert_eq!(error.message(), "GenAI API error: no route");
}

#[test]
fn chat_availability_follows_the_listing() {
    let listed: Result<Vec<String>, String> =
        Ok(vec![String::from("gemma"), String::from("llama3.1")]);
    let other: Result<Vec<String>, String> = Ok(vec![String::from("llama3.1:latest")]);
    let failed: Result<Vec<String>, String> = Err(String::from("down"));
    assert!(ai_integration::test_ai_availability(&listed));
    assert!(!ai_integration::test_ai_availability(&other));
    assert!(!ai_integration::test_ai_availability(&failed));
}

#[test]
fn listing_is_classified_three_ways() {
    let listed: Result<Vec<String>, String> = Ok(vec![String::from("m")]);
    let empty: Result<Vec<String>, String> = Ok(Vec::new());
    let failed: Result<Vec<String>, String> = Err(String::from("down"));
    assert_eq!(classify_listing(&listed, "m"), Availability::Available);
    assert_eq!(classify_listing(&listed, "M"), Availability::Missing);
    assert_eq!(classify_listing(&empty, "m"), Availability::Missing);
    assert_eq!(classify_listing(&failed, "m"), Availability::Unreachable);
}

#[test]
fn name_search_is_exact() {
    let names = vec![String::from("alpha"), String::from(""), String::from("beta")];
    assert!(contains_name(&names, "alpha"));
    assert!(contains_name(&names, "beta"));
    assert!(contains_name(&names, ""));
    assert!(!contains_name(&names, "alph"));
    assert!(!contains_name(&names, "Beta"));
    assert!(!contains_name(&Vec::new(), ""));
}

#[test]
fn frame_has_both_segments_in_order() {
    assert_eq!(
        frame_prompt("one", "two"),
        "History: ###\"one\"### | Current prompt: ###\"two\"###"
    );
    assert_eq!(frame_prompt("", ""), "History: ###\"\"### | Current prompt: ###\"\"###");
}

#[test]
fn request_text_contains_the_prompt() {
    let prompt = "what \"now\"? ###";
    assert_eq!(compose_request_text(None, prompt), prompt);
    let framed = compose_request_text(Some("earlier"), prompt);
    assert!(framed.contains(prompt));
    assert!(framed.starts_with("History: ###\"earlier\"### | Current prompt: ###\""));
    assert_eq!(compose_request_text(None, ""), "");
}

#[test]
fn request_text_keeps_text_beyond_ascii() {
    let framed = compose_request_text(Some("привет"), "日本語 ✓");
    assert_eq!(framed, "History: ###\"привет\"### | Current prompt: ###\"日本語 ✓\"###");
}
