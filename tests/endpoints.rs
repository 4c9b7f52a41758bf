use oxide_todo_sdk::api_helper::{add_token, Endpoints, Method, Request};
use oxide_todo_sdk::types::{TodoStatus, Uuid};
use oxide_todo_sdk::Client;

const ID: &str = "a26a61cc-8c2e-4237-977d-4ce0195735c3";

fn id() -> Uuid {
    Uuid::from_bytes(*uuid::Uuid::parse_str(ID).unwrap().as_bytes())
}

fn p(a: &str, b: &str) -> (String, String) {
    (a.to_string(), b.to_string())
}

fn s(a: &str) -> String {
    a.to_string()
}

#[test]
fn add_token_adds_bearer_header() {
    let r = add_token(Request::new(Method::Get, s("http://h/x")), Some("tok"));
    assert_eq!(r.headers, vec![p("Authorization", "Bearer tok")]);
    assert_eq!(r.url, "http://h/x");
    assert_eq!(r.method, Method::Get);
}

#[test]
fn add_token_without_token_adds_nothing() {
    let r = add_token(Request::new(Method::Post, s("http://h/x")), None);
    assert!(r.headers.is_empty());
    assert!(r.body.is_none());
    assert!(r.query.is_empty());
}

#[test]
fn register_request() {
    let e = Client::new("http://h").register("ann", "pw");
    assert_eq!(e.uri(), "http://h/api/auth/register");
    assert_eq!(e.method(), Method::Post);
    assert_eq!(e.token(), None);
    let r = e.request();
    assert_eq!(r.method, Method::Post);
    assert_eq!(r.url, "http://h/api/auth/register");
    assert!(r.headers.is_empty());
    assert_eq!(r.body, Some(vec![p("username", "ann"), p("password", "pw")]));
    assert!(r.query.is_empty());
}

#[test]
fn login_request() {
    let r = Client::new("http://h").login("ann", "pw").request();
    assert_eq!(r.method, Method::Post);
    assert_eq!(r.url, "http://h/api/auth/login");
    assert!(r.headers.is_empty());
    assert_eq!(r.body, Some(vec![p("username", "ann"), p("password", "pw")]));
}

#[test]
fn revoke_token_request() {
    let user = Client::new("http://h").login_by_token("tok");
    let r = user.revoke_token().request();
    assert_eq!(r.method, Method::Patch);
    assert_eq!(r.url, "http://h/api/auth/revoke");
    assert_eq!(r.headers, vec![p("Authorization", "Bearer tok")]);
    assert!(r.body.is_none());
    assert!(r.query.is_empty());
}

#[test]
fn delete_all_todos_request() {
    let user = Client::new("http://h").login_by_token("tok");
    let r = user.delete_all_todos().request();
    assert_eq!(r.method, Method::Delete);
    assert_eq!(r.url, "http://h/api/todos");
    assert_eq!(r.headers, vec![p("Authorization", "Bearer tok")]);
    assert!(r.body.is_none());
}

#[test]
fn create_todo_endpoint_parts() {
    let e = Endpoints::CreateTodo {
        base_url: s("http://h"),
        token: s("tok"),
        title: s("buy milk"),
        status: TodoStatus::Progress,
    };
    assert_eq!(e.uri(), "http://h/api/todos");
    assert_eq!(e.method(), Method::Post);
    assert_eq!(e.token(), Some("tok"));
    let r = e.add_body(Request::new(Method::Post, s("u")));
    assert_eq!(r.body, Some(vec![p("title", "buy milk"), p("status", "progress")]));
}

#[test]
fn update_todo_endpoint_body_has_only_set_fields() {
    let e = Endpoints::UpdateTodo {
        base_url: s("http://h"),
        token: s("tok"),
        uuid: id(),
        title: None,
        status: Some(TodoStatus::Cancelled),
    };
    assert_eq!(e.uri(), format!("http://h/api/todos/{ID}"));
    assert_eq!(e.method(), Method::Put);
    let r = e.request();
    assert_eq!(r.body, Some(vec![p("status", "cancelled")]));
    let e = Endpoints::UpdateTodo {
        base_url: s("http://h"),
        token: s("tok"),
        uuid: id(),
        title: Some(s("t")),
        status: None,
    };
    assert_eq!(e.request().body, Some(vec![p("title", "t")]));
}

#[test]
fn get_and_delete_todo_endpoints() {
    let g = Endpoints::GetTodo { base_url: s("http://h"), token: s("tok"), uuid: id() };
    assert_eq!(g.uri(), format!("http://h/api/todos/{ID}"));
    assert_eq!(g.method(), Method::Get);
    let d = Endpoints::DeleteTodo { base_url: s("http://h"), token: s("tok"), uuid: id() };
    assert_eq!(d.uri(), format!("http://h/api/todos/{ID}"));
    assert_eq!(d.method(), Method::Delete);
    assert_eq!(d.token(), Some("tok"));
    assert!(d.request().body.is_none());
}

#[test]
fn add_query_appends_to_existing_parameters() {
    let user = Client::new("http://h").login_by_token("tok");
    let e = user.todos().limit(3).offset(7);
    let mut req = Request::new(Method::Get, s("u"));
    req.query.push(p("first", "1"));
    let r = e.endpoint().add_query(req);
    assert_eq!(
        r.query,
        vec![
            p("first", "1"),
            p("limit", "3"),
            p("offset", "7"),
            p("order", "newer"),
            p("order_by", "created_at"),
        ]
    );
}

#[test]
fn add_query_leaves_other_endpoints_alone() {
    let e = Client::new("http://h").login("a", "b");
    let r = e.add_query(Request::new(Method::Post, s("u")));
    assert!(r.query.is_empty());
}
