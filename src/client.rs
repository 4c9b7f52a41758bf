use crate::api_helper::{Endpoints, EndpointsView};
use crate::types::{User, UserReply, UserView};
use vstd::prelude::*;

verus! {

/// A client for the server at one base url.
#[derive(Debug)]
pub struct Client {
    /// The base url of the server.
    pub(crate) base_url: String,
}

impl View for Client {
    type V = Seq<char>;

    /// The base url.
    open(crate) spec fn view(&self) -> Seq<char> {
        self.base_url@
    }
}

impl Client {
    /// Create a new client with the given base url.
    pub fn new(base_url: &str) -> (r: Client)
        ensures
            r@ == base_url@,
    {
        Client { base_url: base_url.to_owned() }
    }

    /// The request that logs the user in with username and password. The
    /// server answers with the user's token; `Client::with_reply` makes the user.
    pub fn login(&self, username: &str, password: &str) -> (r: Endpoints)
        ensures
            r@ == (EndpointsView::Login {
                base_url: self@,
                username: username@,
                password: password@,
            }),
    {
        Endpoints::Login {
            base_url: self.base_url.clone(),
            username: username.to_owned(),
            password: password.to_owned(),
        }
    }

    /// The request that registers the user with username and password. The
    /// server answers with the user's token; `Client::with_reply` makes the user.
    pub fn register(&self, username: &str, password: &str) -> (r: Endpoints)
        ensures
            r@ == (EndpointsView::Register {
                base_url: self@,
                username: username@,
                password: password@,
            }),
    {
        Endpoints::Register {
            base_url: self.base_url.clone(),
            username: username.to_owned(),
            password: password.to_owned(),
        }
    }

    /// The user that the server's reply to `login` or `register` describes, at
    /// this client's base url (the reply does not carry it).
    pub fn with_reply(&self, reply: UserReply) -> (r: User)
        ensures
            r@ == UserView::of_reply(self@, reply),
    {
        User { base_url: self.base_url.clone(), name: reply.username, token: reply.token }
    }

    /// Login the user by token. No request is made and the token is not
    /// checked: a bad token shows only when the user first acts with it.
    pub fn login_by_token(&self, token: &str) -> (r: User)
        ensures
            r@ == (UserView { base_url: self@, name: None, token: token@ }),
    {
        User { base_url: self.base_url.clone(), name: None, token: token.to_owned() }
    }
}

} // verus!
