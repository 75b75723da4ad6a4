use search_sync::trigger::{authorize, TriggerResponse};

#[test]
fn missing_header_is_answered_without_a_run() {
    let key = "secret".to_string();
    let response = authorize(None, &key);
    assert_eq!(response, TriggerResponse::NoApiKey);
    assert_eq!(response.body(), "No api-key!");
    assert!(!response.starts_run());
}

#[test]
fn wrong_key_is_answered_without_a_run() {
    let key = "secret".to_string();
    let sent = "wrong".to_string();
    let response = authorize(Some(&sent), &key);
    assert_eq!(response, TriggerResponse::WrongApiKey);
    assert_eq!(response.body(), "Wrong api-key!");
    assert!(!response.starts_run());
}

#[test]
fn correct_key_starts_the_run() {
    let key = "secret".to_string();
    let sent = "secret".to_string();
    let response = authorize(Some(&sent), &key);
    assert_eq!(response, TriggerResponse::UpdateStarted);
    assert_eq!(response.body(), "Update started");
    assert!(response.starts_run());
}

#[test]
fn key_comparison_is_exact() {
    let key = "secret".to_string();
    let padded = "secret ".to_string();
    assert_eq!(authorize(Some(&padded), &key), TriggerResponse::WrongApiKey);
    let cased = "Secret".to_string();
    assert_eq!(authorize(Some(&cased), &key), TriggerResponse::WrongApiKey);
    let empty = "".to_string();
    assert_eq!(authorize(Some(&empty), &key), TriggerResponse::WrongApiKey);
}
