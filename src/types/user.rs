use super::id::Uuid;
use super::todo::{Todo, TodoView};
use super::todos::{Todos, TodosView};
use super::status::{TodoOrder, TodoOrderBy};
use crate::api_helper::{Endpoints, EndpointsView};
use crate::text::{copy_opt, opt_text};
use vstd::prelude::*;

verus! {

/// A user who is registered and logged in to the server.
///
/// A user comes from `Client::with_reply`, after registering or logging in,
/// or from `Client::login_by_token`. Revoking the token gives a new user with a
/// new token: the old one must not be used any more.
#[derive(Debug)]
#[must_use]
pub struct User {
    /// The base url.
    pub(crate) base_url: String,
    /// The username; `None` where the user was made from a token alone.
    pub(crate) name: Option<String>,
    /// The token that authenticates the user.
    pub(crate) token: String,
}

/// What a `User` holds.
pub struct UserView {
    pub base_url: Seq<char>,
    pub name: Option<Seq<char>>,
    pub token: Seq<char>,
}

impl View for User {
    type V = UserView;

    open(crate) spec fn view(&self) -> UserView {
        UserView { base_url: self.base_url@, name: opt_text(self.name), token: self.token@ }
    }
}

/// What the server sends back for a user: the username, if it sends one, and the token.
#[derive(Debug)]
pub struct UserReply {
    pub username: Option<String>,
    pub token: String,
}

impl UserView {
    /// The user that the server's reply describes, at the given base url.
    pub open spec fn of_reply(base_url: Seq<char>, reply: UserReply) -> UserView {
        UserView { base_url, name: opt_text(reply.username), token: reply.token@ }
    }
}

impl Clone for User {
    fn clone(&self) -> (r: User)
        ensures
            r@ == self@,
    {
        User { base_url: self.base_url.clone(), name: copy_opt(&self.name), token: self.token.clone() }
    }
}

impl User {
    /// Return the username of the user.
    pub fn name(&self) -> (r: Option<&str>)
        ensures
            (match r {
                Some(n) => self@.name == Some(n@),
                None => self@.name is None,
            }),
    {
        match &self.name {
            Some(n) => Some(n.as_str()),
            None => None,
        }
    }

    /// Return the token of the user, which authenticates the user.
    pub fn token(&self) -> (r: &str)
        ensures
            r@ == self@.token,
    {
        self.token.as_str()
    }

    /// A new todo with this title and no uuid. It needs a status too before it
    /// can be created on the server: see `Todo::set_status`.
    pub fn create_todo(&self, title: &str) -> (r: Todo)
        ensures
            r@ == (TodoView {
                base_url: self@.base_url,
                token: self@.token,
                uuid: None,
                title: Some(title@),
                created_at: None,
                updated_at: None,
                status: None,
            }),
    {
        Todo {
            base_url: self.base_url.clone(),
            token: self.token.clone(),
            uuid: None,
            title: Some(title.to_owned()),
            created_at: None,
            updated_at: None,
            status: None,
        }
    }

    /// The todo with this uuid: completing it as it is fetches it, and after
    /// a title or a status is set, completing it updates it.
    pub fn todo_by_uuid(&self, uuid: Uuid) -> (r: Todo)
        ensures
            r@ == (TodoView {
                base_url: self@.base_url,
                token: self@.token,
                uuid: Some(uuid@),
                title: None,
                created_at: None,
                updated_at: None,
                status: None,
            }),
    {
        Todo {
            base_url: self.base_url.clone(),
            token: self.token.clone(),
            uuid: Some(uuid),
            title: None,
            created_at: None,
            updated_at: None,
            status: None,
        }
    }

    /// The request that revokes the user's token. The server answers with a
    /// new token; `User::with_reply` makes the user that holds it.
    pub fn revoke_token(&self) -> (r: Endpoints)
        ensures
            r@ == (EndpointsView::RevokeToken { base_url: self@.base_url, token: self@.token }),
    {
        Endpoints::RevokeToken { base_url: self.base_url.clone(), token: self.token.clone() }
    }

    /// The user that the server's reply to `revoke_token` describes, at this
    /// user's base url. This user is used up: its token is no longer valid.
    pub fn with_reply(self, reply: UserReply) -> (r: User)
        ensures
            r@ == UserView::of_reply(self@.base_url, reply),
    {
        User { base_url: self.base_url, name: reply.username, token: reply.token }
    }

    /// A listing query for the user's todos, with the defaults of `Todos::new`.
    pub fn todos(&self) -> (r: Todos)
        ensures
            r@ == (TodosView {
                base_url: self@.base_url,
                token: self@.token,
                limit: 10,
                offset: 0,
                total: 0,
                order: TodoOrder::Newer,
                order_by: TodoOrderBy::CreatedAt,
                status: None,
                title: None,
            }),
    {
        Todos::new(self.base_url.as_str(), self.token.as_str())
    }

    /// The request that deletes all the todos of the user.
    pub fn delete_all_todos(&self) -> (r: Endpoints)
        ensures
            r@ == (EndpointsView::DeleteTodos { base_url: self@.base_url, token: self@.token }),
    {
        Endpoints::DeleteTodos { base_url: self.base_url.clone(), token: self.token.clone() }
    }
}

} // verus!
