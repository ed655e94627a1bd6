//! The chat sub-loop: quitting, question trimming, request bodies, and
//! what each kind of response prints.

use frontend_cli::chat::{chat_step, render_chat_response, ChatStep};
use frontend_cli::json::chat_body;

#[test]
fn quit_leaves_the_sub_loop() {
    assert_eq!(chat_step(String::from("quit")), ChatStep::Quit);
    assert_eq!(chat_step(String::from("  QUIT  \n")), ChatStep::Quit);
    assert_eq!(chat_step(String::from("Quit\r\n")), ChatStep::Quit);
}

#[test]
fn other_lines_become_trimmed_questions() {
    assert_eq!(
        chat_step(String::from("What is the summary?\n")),
        ChatStep::Ask(String::from("What is the summary?"))
    );
    assert_eq!(chat_step(String::from("")), ChatStep::Ask(String::from("")));
    assert_eq!(
        chat_step(String::from("  quit now  ")),
        ChatStep::Ask(String::from("quit now"))
    );
}

#[test]
fn chat_body_wraps_the_question() {
    assert_eq!(
        chat_body("What is the summary?"),
        "{\"message\":\"What is the summary?\"}"
    );
    assert_eq!(chat_body(""), "{\"message\":\"\"}");
}

#[test]
fn chat_body_escapes_json_text() {
    assert_eq!(
        chat_body("a\"b\\c"),
        "{\"message\":\"a\\\"b\\\\c\"}"
    );
    assert_eq!(
        chat_body("line\nbreak\ttab\rret"),
        "{\"message\":\"line\\nbreak\\ttab\\rret\"}"
    );
    assert_eq!(
        chat_body("\u{0}\u{1}\u{8}\u{c}\u{1f}"),
        "{\"message\":\"\\u0000\\u0001\\b\\f\\u001f\"}"
    );
}

#[test]
fn successful_answer_prints_the_body_verbatim() {
    let out = render_chat_response(true, String::from("200 OK"), String::from("It's about X."));
    assert_eq!(out.out_line, Some(String::from("It's about X.")));
    assert_eq!(out.err_line, None);
}

#[test]
fn failed_answer_prints_status_and_hint() {
    let out = render_chat_response(false, String::from("404 Not Found"), String::from("ignored"));
    assert_eq!(out.out_line, Some(String::from("Did you load a document?")));
    assert_eq!(
        out.err_line,
        Some(String::from("Failed to notify API. Status: 404 Not Found"))
    );
}
