use oxide_todo_sdk::api_helper::Method;
use oxide_todo_sdk::types::{TodoOrder, TodoOrderBy, TodoReply, TodoStatus, Todos, Uuid};
use oxide_todo_sdk::Client;

fn p(a: &str, b: &str) -> (String, String) {
    (a.to_string(), b.to_string())
}

#[test]
fn default_query_parameters() {
    let user = Client::new("http://h").login_by_token("tok");
    let r = user.todos().endpoint().request();
    assert_eq!(r.method, Method::Get);
    assert_eq!(r.url, "http://h/api/todos");
    assert_eq!(r.headers, vec![p("Authorization", "Bearer tok")]);
    assert!(r.body.is_none());
    assert_eq!(
        r.query,
        vec![
            p("limit", "10"),
            p("offset", "0"),
            p("order", "newer"),
            p("order_by", "created_at"),
        ]
    );
    assert!(r.query.iter().all(|(k, _)| k != "status" && k != "title"));
}

#[test]
fn all_query_parameters() {
    let q = Todos::new("http://h", "tok")
        .limit(3)
        .offset(1)
        .order(TodoOrder::Older)
        .order_by(TodoOrderBy::UpdatedAt)
        .status(TodoStatus::Pending)
        .title("issue");
    let r = q.endpoint().request();
    assert_eq!(
        r.query,
        vec![
            p("limit", "3"),
            p("offset", "1"),
            p("order", "older"),
            p("order_by", "updated_at"),
            p("status", "pending"),
            p("title", "issue"),
        ]
    );
}

#[test]
fn large_limit_and_offset() {
    let q = Todos::new("http://h", "tok").limit(usize::MAX).offset(1000);
    let r = q.endpoint().request();
    assert_eq!(r.query[0], p("limit", &usize::MAX.to_string()));
    assert_eq!(r.query[1], p("offset", "1000"));
}

#[test]
fn only_title_filter() {
    let q = Todos::new("http://h", "tok").title("Homework");
    let r = q.endpoint().request();
    assert_eq!(r.query.len(), 5);
    assert_eq!(r.query[4], p("title", "Homework"));
}

#[test]
fn order_tokens() {
    assert_eq!(TodoOrder::Newer.to_string(), "newer");
    assert_eq!(TodoOrder::Older.to_string(), "older");
    assert_eq!(TodoOrderBy::CreatedAt.to_string(), "created_at");
    assert_eq!(TodoOrderBy::UpdatedAt.to_string(), "updated_at");
    assert_eq!(TodoOrder::default(), TodoOrder::Newer);
    assert_eq!(TodoOrderBy::default(), TodoOrderBy::CreatedAt);
}

#[test]
fn listing_reply_keeps_order_and_session() {
    let user = Client::new("http://h").login_by_token("tok");
    let q = user.todos();
    let a = Uuid::from_bytes([1u8; 16]);
    let b = Uuid::from_bytes([2u8; 16]);
    let data = vec![
        TodoReply {
            uuid: Some(a),
            title: Some("first".to_string()),
            status: Some(TodoStatus::Progress),
            created_at: Some(5),
            updated_at: Some(6),
        },
        TodoReply {
            uuid: Some(b),
            title: Some("second".to_string()),
            status: Some(TodoStatus::Cancelled),
            created_at: Some(7),
            updated_at: None,
        },
    ];
    let todos = q.with_reply(data);
    assert_eq!(todos.len(), 2);
    assert_eq!(todos[0].uuid(), Some(a));
    assert_eq!(todos[0].title().map(|t| t.as_str()), Some("first"));
    assert_eq!(todos[0].created_at(), Some(5));
    assert_eq!(todos[0].updated_at(), Some(6));
    assert_eq!(todos[1].uuid(), Some(b));
    assert_eq!(todos[1].status(), Some(&TodoStatus::Cancelled));
    assert_eq!(todos[1].updated_at(), None);
    let del = todos.into_iter().nth(1).unwrap().delete().unwrap().request();
    assert_eq!(del.url, "http://h/api/todos/02020202-0202-0202-0202-020202020202");
    assert_eq!(del.headers, vec![p("Authorization", "Bearer tok")]);
}

#[test]
fn empty_listing_reply() {
    let q = Todos::new("http://h", "tok");
    assert!(q.with_reply(Vec::new()).is_empty());
}

#[test]
fn query_clone_is_equal() {
    let q = Todos::new("http://h", "tok").limit(4).title("x");
    let c = q.clone();
    assert_eq!(c.endpoint().request().query, q.endpoint().request().query);
}
