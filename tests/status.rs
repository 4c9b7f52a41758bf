use oxide_todo_sdk::types::TodoStatus;

#[test]
fn status_tokens() {
    assert_eq!(TodoStatus::Completed.to_string(), "completed");
    assert_eq!(TodoStatus::Progress.to_string(), "progress");
    assert_eq!(TodoStatus::Pending.to_string(), "pending");
    assert_eq!(TodoStatus::Cancelled.to_string(), "cancelled");
}

#[test]
fn status_round_trip() {
    for s in [
        TodoStatus::Completed,
        TodoStatus::Progress,
        TodoStatus::Pending,
        TodoStatus::Cancelled,
    ] {
        assert_eq!(TodoStatus::from_token(&s.to_string()), Some(s));
    }
}

#[test]
fn unknown_status_token() {
    assert_eq!(TodoStatus::from_token("done"), None);
    assert_eq!(TodoStatus::from_token("Completed"), None);
    assert_eq!(TodoStatus::from_token(""), None);
    assert_eq!(TodoStatus::from_token("in_progress"), None);
}
