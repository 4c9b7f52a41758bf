//! The endpoint catalogue: every operation of the service as a value, and the
//! HTTP request (method, address, headers, body and query) that it stands for.
use crate::text::{decimal, decimal_string, opt_text};
use crate::types::{hyphenated_text, TodoStatus, Todos, TodosView, Uuid};
use vstd::prelude::*;
use vstd::string::*;

verus! {

/// An HTTP method.
#[derive(Clone, Copy, Debug, PartialEq, Eq, Structural)]
pub enum Method {
    Get,
    Post,
    Put,
    Patch,
    Delete,
}

/// A name and a value: a header, a member of a JSON object body, or a query parameter.
pub type Pair = (String, String);

/// The text of a sequence of pairs.
pub open spec fn pairs_text(v: Seq<Pair>) -> Seq<(Seq<char>, Seq<char>)> {
    v.map_values(|p: Pair| (p.0@, p.1@))
}

/// The text of an optional sequence of pairs.
pub open spec fn opt_pairs_text(v: Option<Vec<Pair>>) -> Option<Seq<(Seq<char>, Seq<char>)>> {
    match v {
        Some(v) => Some(pairs_text(v@)),
        None => None,
    }
}

/// An HTTP request as plain values, for a transport to send.
#[derive(Debug)]
pub struct Request {
    pub method: Method,
    pub url: String,
    /// Headers, in the order they were added.
    pub headers: Vec<Pair>,
    /// A JSON object whose members are strings, in order; `None` for no body.
    pub body: Option<Vec<Pair>>,
    /// Query parameters, in order.
    pub query: Vec<Pair>,
}

/// What a `Request` holds.
pub struct RequestView {
    pub method: Method,
    pub url: Seq<char>,
    pub headers: Seq<(Seq<char>, Seq<char>)>,
    pub body: Option<Seq<(Seq<char>, Seq<char>)>>,
    pub query: Seq<(Seq<char>, Seq<char>)>,
}

impl View for Request {
    type V = RequestView;

    open spec fn view(&self) -> RequestView {
        RequestView {
            method: self.method,
            url: self.url@,
            headers: pairs_text(self.headers@),
            body: opt_pairs_text(self.body),
            query: pairs_text(self.query@),
        }
    }
}

impl Request {
    /// A request with no header, no body and no query.
    pub fn new(method: Method, url: String) -> (r: Request)
        ensures
            r@ == (RequestView {
                method,
                url: url@,
                headers: seq![],
                body: None,
                query: seq![],
            }),
    {
        let r = Request { method, url, headers: Vec::new(), body: None, query: Vec::new() };
        assert(pairs_text(r.headers@) =~= seq![]);
        assert(pairs_text(r.query@) =~= seq![]);
        r
    }
}

fn pair(name: &str, value: String) -> (r: Pair)
    ensures
        r.0@ == name@,
        r.1@ == value@,
{
    (name.to_owned(), value)
}

fn push_pair(v: &mut Vec<Pair>, p: Pair)
    ensures
        pairs_text(final(v)@) == pairs_text(old(v)@).push((p.0@, p.1@)),
{
    v.push(p);
    assert(pairs_text(v@) =~= pairs_text(old(v)@).push((p.0@, p.1@)));
}

/// The `Authorization` header that presents a bearer token.
pub open spec fn bearer_header(token: Seq<char>) -> (Seq<char>, Seq<char>) {
    ("Authorization"@, "Bearer "@ + token)
}

/// Add the token to the request as a bearer token, if the token is not `None`.
pub fn add_token(request: Request, client_token: Option<&str>) -> (r: Request)
    ensures
        r@ == (match client_token {
            Some(t) => RequestView { headers: request@.headers.push(bearer_header(t@)), ..request@ },
            None => request@,
        }),
{
    match client_token {
        Some(token) => {
            let mut request = request;
            let mut value = "Bearer ".to_owned();
            value.append(token);
            push_pair(&mut request.headers, pair("Authorization", value));
            request
        },
        None => request,
    }
}

/// All the endpoints of the server, each with what its request needs.
#[derive(Debug)]
pub enum Endpoints {
    /// Register a new user. (POST)
    Register { base_url: String, username: String, password: String },
    /// Log a user in. (POST)
    Login { base_url: String, username: String, password: String },
    /// Revoke a token. (PATCH)
    RevokeToken { base_url: String, token: String },
    /// Get a todo by uuid. (GET)
    GetTodo { base_url: String, token: String, uuid: Uuid },
    /// Create a new todo. (POST)
    CreateTodo { base_url: String, token: String, title: String, status: TodoStatus },
    /// Update a todo; a field that is `None` is left as it is. (PUT)
    UpdateTodo {
        base_url: String,
        token: String,
        uuid: Uuid,
        title: Option<String>,
        status: Option<TodoStatus>,
    },
    /// Delete a todo. (DELETE)
    DeleteTodo { base_url: String, token: String, uuid: Uuid },
    /// List the todos that a query asks for. (GET)
    GetTodos(Todos),
    /// Delete all the todos. (DELETE)
    DeleteTodos { base_url: String, token: String },
}

/// What an `Endpoints` value holds.
pub enum EndpointsView {
    Register { base_url: Seq<char>, username: Seq<char>, password: Seq<char> },
    Login { base_url: Seq<char>, username: Seq<char>, password: Seq<char> },
    RevokeToken { base_url: Seq<char>, token: Seq<char> },
    GetTodo { base_url: Seq<char>, token: Seq<char>, uuid: Seq<u8> },
    CreateTodo { base_url: Seq<char>, token: Seq<char>, title: Seq<char>, status: TodoStatus },
    UpdateTodo {
        base_url: Seq<char>,
        token: Seq<char>,
        uuid: Seq<u8>,
        title: Option<Seq<char>>,
        status: Option<TodoStatus>,
    },
    DeleteTodo { base_url: Seq<char>, token: Seq<char>, uuid: Seq<u8> },
    GetTodos(TodosView),
    DeleteTodos { base_url: Seq<char>, token: Seq<char> },
}

impl View for Endpoints {
    type V = EndpointsView;

    open spec fn view(&self) -> EndpointsView {
        match self {
            Endpoints::Register { base_url, username, password } => EndpointsView::Register {
                base_url: base_url@,
                username: username@,
                password: password@,
            },
            Endpoints::Login { base_url, username, password } => EndpointsView::Login {
                base_url: base_url@,
                username: username@,
                password: password@,
            },
            Endpoints::RevokeToken { base_url, token } => EndpointsView::RevokeToken {
                base_url: base_url@,
                token: token@,
            },
            Endpoints::GetTodo { base_url, token, uuid } => EndpointsView::GetTodo {
                base_url: base_url@,
                token: token@,
                uuid: uuid@,
            },
            Endpoints::CreateTodo { base_url, token, title, status } => EndpointsView::CreateTodo {
                base_url: base_url@,
                token: token@,
                title: title@,
                status: *status,
            },
            Endpoints::UpdateTodo { base_url, token, uuid, title, status } =>
                EndpointsView::UpdateTodo {
                base_url: base_url@,
                token: token@,
                uuid: uuid@,
                title: opt_text(*title),
                status: *status,
            },
            Endpoints::DeleteTodo { base_url, token, uuid } => EndpointsView::DeleteTodo {
                base_url: base_url@,
                token: token@,
                uuid: uuid@,
            },
            Endpoints::GetTodos(todos) => EndpointsView::GetTodos(todos@),
            Endpoints::DeleteTodos { base_url, token } => EndpointsView::DeleteTodos {
                base_url: base_url@,
                token: token@,
            },
        }
    }
}

/// The address of a single todo.
pub open spec fn todo_uri(base_url: Seq<char>, uuid: Seq<u8>) -> Seq<char> {
    base_url + "/api/todos/"@ + hyphenated_text(uuid)
}

/// The optional member `name` of a body: present only where the value is.
pub open spec fn opt_member(name: Seq<char>, value: Option<Seq<char>>) -> Seq<
    (Seq<char>, Seq<char>),
> {
    match value {
        Some(v) => seq![(name, v)],
        None => seq![],
    }
}

/// The query parameters of a listing.
pub open spec fn listing_query(q: TodosView) -> Seq<(Seq<char>, Seq<char>)> {
    seq![
        ("limit"@, decimal(q.limit as nat)),
        ("offset"@, decimal(q.offset as nat)),
        ("order"@, q.order.token()),
        ("order_by"@, q.order_by.token()),
    ] + opt_member(
        "status"@,
        match q.status {
            Some(s) => Some(s.token()),
            None => None,
        },
    ) + opt_member("title"@, q.title)
}

impl EndpointsView {
    /// The address of the endpoint.
    pub open spec fn uri(self) -> Seq<char> {
        match self {
            EndpointsView::Register { base_url, .. } => base_url + "/api/auth/register"@,
            EndpointsView::Login { base_url, .. } => base_url + "/api/auth/login"@,
            EndpointsView::RevokeToken { base_url, .. } => base_url + "/api/auth/revoke"@,
            EndpointsView::CreateTodo { base_url, .. } => base_url + "/api/todos"@,
            EndpointsView::DeleteTodos { base_url, .. } => base_url + "/api/todos"@,
            EndpointsView::GetTodos(q) => q.base_url + "/api/todos"@,
            EndpointsView::GetTodo { base_url, uuid, .. } => todo_uri(base_url, uuid),
            EndpointsView::UpdateTodo { base_url, uuid, .. } => todo_uri(base_url, uuid),
            EndpointsView::DeleteTodo { base_url, uuid, .. } => todo_uri(base_url, uuid),
        }
    }

    /// The HTTP method of the endpoint.
    pub open spec fn method(self) -> Method {
        match self {
            EndpointsView::Register { .. } => Method::Post,
            EndpointsView::Login { .. } => Method::Post,
            EndpointsView::CreateTodo { .. } => Method::Post,
            EndpointsView::RevokeToken { .. } => Method::Patch,
            EndpointsView::UpdateTodo { .. } => Method::Put,
            EndpointsView::GetTodo { .. } => Method::Get,
            EndpointsView::GetTodos(..) => Method::Get,
            EndpointsView::DeleteTodo { .. } => Method::Delete,
            EndpointsView::DeleteTodos { .. } => Method::Delete,
        }
    }

    /// The token to present, for the endpoints that need the user to be logged in.
    pub open spec fn token(self) -> Option<Seq<char>> {
        match self {
            EndpointsView::Register { .. } => None,
            EndpointsView::Login { .. } => None,
            EndpointsView::GetTodos(q) => Some(q.token),
            EndpointsView::RevokeToken { token, .. } => Some(token),
            EndpointsView::GetTodo { token, .. } => Some(token),
            EndpointsView::CreateTodo { token, .. } => Some(token),
            EndpointsView::UpdateTodo { token, .. } => Some(token),
            EndpointsView::DeleteTodo { token, .. } => Some(token),
            EndpointsView::DeleteTodos { token, .. } => Some(token),
        }
    }

    /// The JSON object body, for the endpoints that send one.
    pub open spec fn body(self) -> Option<Seq<(Seq<char>, Seq<char>)>> {
        match self {
            EndpointsView::Register { username, password, .. } => Some(
                seq![("username"@, username), ("password"@, password)],
            ),
            EndpointsView::Login { username, password, .. } => Some(
                seq![("username"@, username), ("password"@, password)],
            ),
            EndpointsView::CreateTodo { title, status, .. } => Some(
                seq![("title"@, title), ("status"@, status.token())],
            ),
            EndpointsView::UpdateTodo { title, status, .. } => Some(
                opt_member("title"@, title) + opt_member(
                    "status"@,
                    match status {
                        Some(s) => Some(s.token()),
                        None => None,
                    },
                ),
            ),
            _ => None,
        }
    }

    /// The query parameters of the endpoint.
    pub open spec fn query(self) -> Seq<(Seq<char>, Seq<char>)> {
        match self {
            EndpointsView::GetTodos(q) => listing_query(q),
            _ => seq![],
        }
    }

    /// The whole request.
    pub open spec fn request(self) -> RequestView {
        RequestView {
            method: self.method(),
            url: self.uri(),
            headers: match self.token() {
                Some(t) => seq![bearer_header(t)],
                None => seq![],
            },
            body: self.body(),
            query: self.query(),
        }
    }
}

fn joined(base_url: &String, path: &str) -> (r: String)
    ensures
        r@ == base_url@ + path@,
{
    let mut s = base_url.clone();
    s.append(path);
    s
}

fn todo_address(base_url: &String, uuid: &Uuid) -> (r: String)
    ensures
        r@ == todo_uri(base_url@, uuid@),
{
    let mut s = joined(base_url, "/api/todos/");
    let id = uuid.hyphenated();
    s.append(id.as_str());
    s
}

fn opt_status_token(status: &Option<TodoStatus>) -> (r: Option<String>)
    ensures
        opt_text(r) == (match *status {
            Some(s) => Some(s.token()),
            None => None,
        }),
{
    match status {
        Some(s) => Some(s.to_string()),
        None => None,
    }
}

fn push_opt_member(v: &mut Vec<Pair>, name: &str, value: Option<String>)
    ensures
        pairs_text(final(v)@) == pairs_text(old(v)@) + opt_member(name@, opt_text(value)),
{
    match value {
        Some(x) => {
            push_pair(v, pair(name, x));
        },
        None => {
            assert(pairs_text(v@) =~= pairs_text(v@) + opt_member(name@, opt_text(value)));
        },
    }
}

impl Endpoints {
    /// Returns the uri of the endpoint.
    pub fn uri(&self) -> (r: String)
        ensures
            r@ == self@.uri(),
    {
        match self {
            Endpoints::Register { base_url, .. } => joined(base_url, "/api/auth/register"),
            Endpoints::Login { base_url, .. } => joined(base_url, "/api/auth/login"),
            Endpoints::RevokeToken { base_url, .. } => joined(base_url, "/api/auth/revoke"),
            Endpoints::CreateTodo { base_url, .. } => joined(base_url, "/api/todos"),
            Endpoints::DeleteTodos { base_url, .. } => joined(base_url, "/api/todos"),
            Endpoints::GetTodos(todos) => joined(&todos.base_url, "/api/todos"),
            Endpoints::GetTodo { base_url, uuid, .. } => todo_address(base_url, uuid),
            Endpoints::UpdateTodo { base_url, uuid, .. } => todo_address(base_url, uuid),
            Endpoints::DeleteTodo { base_url, uuid, .. } => todo_address(base_url, uuid),
        }
    }

    /// Returns the method of the endpoint.
    pub fn method(&self) -> (r: Method)
        ensures
            r == self@.method(),
    {
        match self {
            Endpoints::Register { .. } => Method::Post,
            Endpoints::Login { .. } => Method::Post,
            Endpoints::CreateTodo { .. } => Method::Post,
            Endpoints::RevokeToken { .. } => Method::Patch,
            Endpoints::UpdateTodo { .. } => Method::Put,
            Endpoints::GetTodo { .. } => Method::Get,
            Endpoints::GetTodos(..) => Method::Get,
            Endpoints::DeleteTodo { .. } => Method::Delete,
            Endpoints::DeleteTodos { .. } => Method::Delete,
        }
    }

    /// Returns the user token if the endpoint requires the user to be logged in,
    /// and `None` if it does not.
    pub fn token(&self) -> (r: Option<&str>)
        ensures
            (match r {
                Some(t) => self@.token() == Some(t@),
                None => self@.token() is None,
            }),
    {
        match self {
            Endpoints::Register { .. } => None,
            Endpoints::Login { .. } => None,
            Endpoints::GetTodos(todos) => Some(todos.token.as_str()),
            Endpoints::RevokeToken { token, .. } => Some(token.as_str()),
            Endpoints::GetTodo { token, .. } => Some(token.as_str()),
            Endpoints::CreateTodo { token, .. } => Some(token.as_str()),
            Endpoints::UpdateTodo { token, .. } => Some(token.as_str()),
            Endpoints::DeleteTodo { token, .. } => Some(token.as_str()),
            Endpoints::DeleteTodos { token, .. } => Some(token.as_str()),
        }
    }

    /// Add a body to the request if the endpoint sends one.
    pub fn add_body(&self, req: Request) -> (r: Request)
        ensures
            r@ == (match self@.body() {
                Some(b) => RequestView { body: Some(b), ..req@ },
                None => req@,
            }),
    {
        let mut req = req;
        match self {
            Endpoints::Register { username, password, .. } | Endpoints::Login {
                username,
                password,
                ..
            } => {
                let mut b: Vec<Pair> = Vec::new();
                assert(pairs_text(b@) =~= seq![]);
                push_pair(&mut b, pair("username", username.clone()));
                push_pair(&mut b, pair("password", password.clone()));
                assert(pairs_text(b@) =~= seq![("username"@, username@), ("password"@, password@)]);
                req.body = Some(b);
            },
            Endpoints::CreateTodo { title, status, .. } => {
                let mut b: Vec<Pair> = Vec::new();
                assert(pairs_text(b@) =~= seq![]);
                push_pair(&mut b, pair("title", title.clone()));
                push_pair(&mut b, pair("status", status.to_string()));
                assert(pairs_text(b@) =~= seq![("title"@, title@), ("status"@, status.token())]);
                req.body = Some(b);
            },
            Endpoints::UpdateTodo { title, status, .. } => {
                let mut b: Vec<Pair> = Vec::new();
                assert(pairs_text(b@) =~= seq![]);
                push_opt_member(&mut b, "title", crate::text::copy_opt(title));
                push_opt_member(&mut b, "status", opt_status_token(status));
                req.body = Some(b);
            },
            _ => {},
        }
        req
    }

    /// Add the query parameters to the request if the endpoint has any.
    pub fn add_query(&self, req: Request) -> (r: Request)
        ensures
            r@ == (RequestView { query: req@.query + self@.query(), ..req@ }),
    {
        let mut req = req;
        match self {
            Endpoints::GetTodos(todos) => {
                let ghost q0 = pairs_text(req.query@);
                push_pair(&mut req.query, pair("limit", decimal_string(todos.limit)));
                push_pair(&mut req.query, pair("offset", decimal_string(todos.offset)));
                push_pair(&mut req.query, pair("order", todos.order.to_string()));
                push_pair(&mut req.query, pair("order_by", todos.order_by.to_string()));
                push_opt_member(&mut req.query, "status", opt_status_token(&todos.status));
                push_opt_member(&mut req.query, "title", crate::text::copy_opt(&todos.title));
                assert(pairs_text(req.query@) =~= q0 + listing_query(todos@));
            },
            _ => {
                assert(req@.query =~= req@.query + self@.query());
            },
        }
        req
    }

    /// The request that performs the operation: method, address, body and query,
    /// with the user's token as a bearer token where the endpoint needs one.
    pub fn request(&self) -> (r: Request)
        ensures
            r@ == self@.request(),
    {
        let req = self.add_body(Request::new(self.method(), self.uri()));
        let req = self.add_query(req);
        let r = add_token(req, self.token());
        assert(r@.headers =~= self@.request().headers);
        assert(r@.query =~= self@.request().query);
        r
    }
}

} // verus!
