use app_broker::github_app::{save_response, CallbackParams, CallbackState, WebhookState};

#[test]
fn fresh_callback_state_is_empty() {
    let st = CallbackState::default();
    assert_eq!(st.code().as_str(), "");
    assert!(st.installation_ids().is_empty());
}

#[test]
fn callback_remembers_code_and_new_installation() {
    let mut st = CallbackState::default();
    st.apply_callback(CallbackParams {
        code: "c-1".to_string(),
        installation_id: "42".to_string(),
    });
    assert_eq!(st.code().as_str(), "c-1");
    assert_eq!(st.installation_ids(), &vec!["42".to_string()]);
}

#[test]
fn repeated_installation_is_kept_once() {
    let mut st = CallbackState::default();
    st.apply_callback(CallbackParams {
        code: "c-1".to_string(),
        installation_id: "42".to_string(),
    });
    st.apply_callback(CallbackParams {
        code: "c-2".to_string(),
        installation_id: "42".to_string(),
    });
    assert_eq!(st.code().as_str(), "c-2");
    assert_eq!(st.installation_ids(), &vec!["42".to_string()]);
}

#[test]
fn distinct_installations_accumulate_in_first_seen_order() {
    let mut st = CallbackState::default();
    st.apply_callback(CallbackParams {
        code: "c-1".to_string(),
        installation_id: "42".to_string(),
    });
    st.apply_callback(CallbackParams {
        code: "c-2".to_string(),
        installation_id: "7".to_string(),
    });
    st.apply_callback(CallbackParams {
        code: "c-3".to_string(),
        installation_id: "42".to_string(),
    });
    assert_eq!(st.installation_ids(), &vec!["42".to_string(), "7".to_string()]);
}

#[test]
fn state_rebuilt_from_parts_keeps_code_and_references() {
    let st = CallbackState::from_parts(
        "c-9".to_string(),
        vec!["1".to_string(), "2".to_string()],
    );
    assert_eq!(st.code().as_str(), "c-9");
    assert_eq!(st.installation_ids(), &vec!["1".to_string(), "2".to_string()]);
}

#[test]
fn webhook_state_defaults_to_nothing() {
    let _ = WebhookState::default();
}

#[test]
fn failed_save_is_a_500_naming_the_cause() {
    let (status, body) = save_response(Err("permission denied".to_string()));
    assert_eq!(status, 500);
    assert_eq!(body, "failed to save the state: permission denied");
}

#[test]
fn successful_save_is_processed() {
    let (status, body) = save_response(Ok(()));
    assert_eq!(status, 200);
    assert_eq!(body, "processed");
}
