use cuadrillas::oauth::{callback_page, classify_callback, poll_decision, OAuthCallback, PollAction};
use cuadrillas::{create_error_page, create_success_page, decode_excel_data, AppState};

#[test]
fn success_page_is_the_fixed_page() {
    let page = create_success_page();
    assert!(page.contains("<title>Autorización Completada</title>"));
    assert!(page.contains("¡Autorización Completada!"));
    assert!(page.trim_start().starts_with("<!DOCTYPE html>"));
}

#[test]
fn error_page_shows_the_error_code() {
    let page = create_error_page("access_denied");
    assert!(page.contains("<div class=\"error-code\">Error: access_denied</div>"));
    assert!(page.contains("body { "));
    assert!(!page.contains("{{"));
    assert!(page.contains("setTimeout(() => window.close(), 10000);"));
}

#[test]
fn decode_excel_data_decodes_base64() {
    assert_eq!(decode_excel_data("aGVsbG8="), Ok(b"hello".to_vec()));
    assert_eq!(decode_excel_data(""), Ok(Vec::new()));
}

#[test]
fn decode_excel_data_reports_invalid_input() {
    let err = decode_excel_data("no es base64!").unwrap_err();
    assert!(err.starts_with("Error decodificando base64: "));
    assert!(err.len() > "Error decodificando base64: ".len());
}

#[test]
fn operation_counter_counts_and_wraps() {
    let mut state = AppState::new();
    assert_eq!(state.operation_count(), 0);
    assert_eq!(state.record_operation(), 1);
    assert_eq!(state.record_operation(), 2);
    assert_eq!(state.operation_count(), 2);
    let default_state = AppState::default();
    assert_eq!(default_state.operation_count(), 0);
}

#[test]
fn callback_with_code_is_authorized() {
    let cb = classify_callback(Some("abc".to_string()), Some("x".to_string()));
    assert_eq!(cb, OAuthCallback::Authorized("abc".to_string()));
    assert_eq!(callback_page(&cb), Some(create_success_page()));
}

#[test]
fn callback_with_error_is_refused() {
    let cb = classify_callback(None, Some("access_denied".to_string()));
    assert_eq!(cb, OAuthCallback::Refused("access_denied".to_string()));
    assert_eq!(callback_page(&cb), Some(create_error_page("access_denied")));
}

#[test]
fn callback_without_parameters_is_ignored() {
    let cb = classify_callback(None, None);
    assert_eq!(cb, OAuthCallback::Ignored);
    assert_eq!(callback_page(&cb), None);
}

#[test]
fn polling_waits_then_times_out() {
    assert_eq!(poll_decision(1, None), PollAction::Wait);
    assert_eq!(poll_decision(119, None), PollAction::Wait);
    assert_eq!(poll_decision(120, None), PollAction::TimedOut);
    assert_eq!(poll_decision(120, Some("c".to_string())), PollAction::Deliver("c".to_string()));
}
