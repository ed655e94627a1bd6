//! The load-file action: configuration errors, cancellation, the canonical
//! destination, the notification body, and the printed diagnostics.

use frontend_cli::load::{env_required, notify_body, plan_copy, render_load_response};
use frontend_cli::messages::{
    copy_error_message, loaded_message, missing_env_message, transport_error_message,
};
use frontend_cli::paths::{file_name_of, join_path};

#[test]
fn missing_document_path_is_reported() {
    assert_eq!(
        env_required(None, "DOCUMENT_PATH"),
        Err(String::from("Error: DOCUMENT_PATH environment variable not found."))
    );
    assert_eq!(
        env_required(None, "API_SEND_ASNWER"),
        Err(String::from("Error: API_SEND_ASNWER environment variable not found."))
    );
    assert_eq!(
        env_required(None, "API_LOAD_DOC"),
        Err(String::from("Error: API_LOAD_DOC environment variable not found."))
    );
}

#[test]
fn present_value_is_passed_through() {
    assert_eq!(
        env_required(Some(String::from("/tmp/docs")), "DOCUMENT_PATH"),
        Ok(String::from("/tmp/docs"))
    );
}

#[test]
fn cancelled_dialog_yields_no_plan() {
    assert_eq!(plan_copy("/tmp/docs", None), None);
}

#[test]
fn selected_file_is_stored_under_the_canonical_name() {
    let plan = plan_copy("/tmp/docs", Some(String::from("/home/user/report.pdf"))).unwrap();
    assert_eq!(plan.source, "/home/user/report.pdf");
    assert_eq!(plan.original_name, "report.pdf");
    assert_eq!(plan.new_name, "doc.pdf");
    assert_eq!(plan.destination, "/tmp/docs/doc.pdf");
}

#[test]
fn destination_does_not_depend_on_the_picked_name() {
    let a = plan_copy("/tmp/docs", Some(String::from("/home/user/report.pdf"))).unwrap();
    let b = plan_copy("/tmp/docs", Some(String::from("/elsewhere/old copy.pdf"))).unwrap();
    assert_eq!(a.destination, b.destination);
    assert_eq!(a.new_name, b.new_name);
}

#[test]
fn join_path_handles_separators() {
    assert_eq!(join_path("/tmp/docs", "doc.pdf"), "/tmp/docs/doc.pdf");
    assert_eq!(join_path("/tmp/docs/", "doc.pdf"), "/tmp/docs/doc.pdf");
    assert_eq!(join_path("", "doc.pdf"), "doc.pdf");
}

#[test]
fn file_name_is_the_part_after_the_last_separator() {
    assert_eq!(file_name_of("/home/user/report.pdf"), "report.pdf");
    assert_eq!(file_name_of("report.pdf"), "report.pdf");
    assert_eq!(file_name_of("a/b/c.pdf"), "c.pdf");
}

#[test]
fn notification_body_lists_the_three_names() {
    let plan = plan_copy("/tmp/docs", Some(String::from("/home/user/report.pdf"))).unwrap();
    assert_eq!(
        notify_body(&plan),
        "{\"destination_path\":\"/tmp/docs/doc.pdf\",\"message\":\"File copied successfully\",\"new_name\":\"doc.pdf\",\"original_name\":\"report.pdf\"}"
    );
}

#[test]
fn successful_notification_prints_the_body() {
    let out = render_load_response(true, String::from("200 OK"), String::from("stored"));
    assert_eq!(out.out_line, Some(String::from("stored")));
    assert_eq!(out.err_line, None);
}

#[test]
fn failed_notification_prints_the_status() {
    let out = render_load_response(false, String::from("500 Internal Server Error"), String::from("ignored"));
    assert_eq!(out.out_line, None);
    assert_eq!(
        out.err_line,
        Some(String::from("Failed to notify API. Status: 500 Internal Server Error"))
    );
}

#[test]
fn diagnostics_carry_their_detail() {
    assert_eq!(
        missing_env_message("DOCUMENT_PATH"),
        "Error: DOCUMENT_PATH environment variable not found."
    );
    assert_eq!(
        loaded_message("report.pdf", "doc.pdf"),
        "File 'report.pdf' loaded successfully as 'doc.pdf'!"
    );
    assert_eq!(copy_error_message("denied"), "Error copying file: denied");
    assert_eq!(
        transport_error_message("connection refused"),
        "Error sending API request: connection refused"
    );
}
