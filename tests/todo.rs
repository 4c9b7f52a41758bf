use oxide_todo_sdk::api_helper::{Endpoints, Method};
use oxide_todo_sdk::errors::{Error, SDKError};
use oxide_todo_sdk::types::{TodoReply, TodoStatus, Uuid};
use oxide_todo_sdk::Client;

const ID: &str = "a26a61cc-8c2e-4237-977d-4ce0195735c3";

fn id() -> Uuid {
    Uuid::from_bytes(*uuid::Uuid::parse_str(ID).unwrap().as_bytes())
}

fn p(a: &str, b: &str) -> (String, String) {
    (a.to_string(), b.to_string())
}

fn missing_text(r: Result<Endpoints, Error>) -> String {
    match r {
        Err(Error::SDKError(SDKError::MissingField(m))) => m,
        other => panic!("expected a missing-field error, got {other:?}"),
    }
}

#[test]
fn create_without_title_fails_naming_title() {
    let user = Client::new("http://h").login_by_token("tok");
    // A todo with neither uuid nor title, but a status.
    let todo = user.create_todo("x").with_reply(TodoReply {
        uuid: None,
        title: None,
        status: Some(TodoStatus::Pending),
        created_at: None,
        updated_at: None,
    });
    assert_eq!(todo.title(), None);
    assert_eq!(todo.status(), Some(&TodoStatus::Pending));
    let m = missing_text(todo.endpoint());
    assert!(m.starts_with("`title`"));
    assert_eq!(m, "`title` needed to create a todo");
}

#[test]
fn create_without_status_fails_naming_status() {
    let user = Client::new("http://h").login_by_token("tok");
    let todo = user.create_todo("buy milk");
    let m = missing_text(todo.endpoint());
    assert!(m.starts_with("`status`"));
    assert_eq!(
        m,
        "`status` you cannot create a todo without a status, use `Todo::set_status` to set the status"
    );
}

#[test]
fn create_with_title_and_status_posts() {
    let user = Client::new("http://h").login_by_token("tok");
    let todo = user.create_todo("buy milk").set_status(TodoStatus::Completed);
    let r = todo.endpoint().unwrap().request();
    assert_eq!(r.method, Method::Post);
    assert_eq!(r.url, "http://h/api/todos");
    assert_eq!(r.headers, vec![p("Authorization", "Bearer tok")]);
    assert_eq!(r.body, Some(vec![p("title", "buy milk"), p("status", "completed")]));
    assert!(r.query.is_empty());
}

#[test]
fn fetch_by_uuid_gets() {
    let user = Client::new("http://h").login_by_token("tok");
    let r = user.todo_by_uuid(id()).endpoint().unwrap().request();
    assert_eq!(r.method, Method::Get);
    assert_eq!(r.url, format!("http://h/api/todos/{ID}"));
    assert_eq!(r.headers, vec![p("Authorization", "Bearer tok")]);
    assert!(r.body.is_none());
    assert!(r.query.is_empty());
}

#[test]
fn update_sends_only_set_fields() {
    let user = Client::new("http://h").login_by_token("tok");
    let r = user
        .todo_by_uuid(id())
        .set_status(TodoStatus::Cancelled)
        .endpoint()
        .unwrap()
        .request();
    assert_eq!(r.method, Method::Put);
    assert_eq!(r.url, format!("http://h/api/todos/{ID}"));
    assert_eq!(r.body, Some(vec![p("status", "cancelled")]));

    let r = user.todo_by_uuid(id()).set_title("new").endpoint().unwrap().request();
    assert_eq!(r.method, Method::Put);
    assert_eq!(r.body, Some(vec![p("title", "new")]));

    let r = user
        .todo_by_uuid(id())
        .set_title("new")
        .set_status(TodoStatus::Progress)
        .endpoint()
        .unwrap()
        .request();
    assert_eq!(r.body, Some(vec![p("title", "new"), p("status", "progress")]));
}

#[test]
fn delete_without_uuid_fails_naming_uuid() {
    let user = Client::new("http://h").login_by_token("tok");
    let todo = user.create_todo("x").set_status(TodoStatus::Pending);
    let m = missing_text(todo.delete());
    assert!(m.starts_with("`uuid`"));
    assert_eq!(m, "`uuid` is required to delete a todo.");
}

#[test]
fn delete_with_uuid_deletes() {
    let user = Client::new("http://h").login_by_token("tok");
    let r = user.todo_by_uuid(id()).delete().unwrap().request();
    assert_eq!(r.method, Method::Delete);
    assert_eq!(r.url, format!("http://h/api/todos/{ID}"));
    assert_eq!(r.headers, vec![p("Authorization", "Bearer tok")]);
    assert!(r.body.is_none());
}

#[test]
fn fetched_todo_takes_the_reply() {
    let user = Client::new("http://h").login_by_token("tok");
    let todo = user.todo_by_uuid(id());
    let e = todo.endpoint().unwrap().request();
    assert_eq!(e.method, Method::Get);
    assert_eq!(e.url, format!("http://h/api/todos/{ID}"));
    let reply = TodoReply {
        uuid: Some(id()),
        title: Some("x".to_string()),
        status: Some(TodoStatus::Pending),
        created_at: Some(1),
        updated_at: Some(1),
    };
    let done = todo.with_reply(reply);
    assert_eq!(done.title().map(|t| t.as_str()), Some("x"));
    assert_eq!(done.status(), Some(&TodoStatus::Pending));
    assert_eq!(done.uuid(), Some(id()));
    assert_eq!(done.created_at(), Some(1));
    assert_eq!(done.updated_at(), Some(1));
    // The reply keeps the caller's base url and token: the next request uses them.
    let next = done.set_status(TodoStatus::Completed).endpoint().unwrap().request();
    assert_eq!(next.url, format!("http://h/api/todos/{ID}"));
    assert_eq!(next.headers, vec![p("Authorization", "Bearer tok")]);
}

#[test]
fn setters_and_getters() {
    let user = Client::new("http://h").login_by_token("tok");
    let todo = user.create_todo("a");
    assert_eq!(todo.title().map(|t| t.as_str()), Some("a"));
    assert_eq!(todo.status(), None);
    assert_eq!(todo.uuid(), None);
    assert_eq!(todo.created_at(), None);
    assert_eq!(todo.updated_at(), None);
    let todo = todo.set_title("b").set_status(TodoStatus::Progress);
    assert_eq!(todo.title().map(|t| t.as_str()), Some("b"));
    assert_eq!(todo.status(), Some(&TodoStatus::Progress));
    let fetched = user.todo_by_uuid(id());
    assert_eq!(fetched.uuid(), Some(id()));
    assert_eq!(fetched.title(), None);
    assert_eq!(fetched.status(), None);
}
