use super::id::Uuid;
use super::status::TodoStatus;
use crate::api_helper::{Endpoints, EndpointsView};
use crate::errors::{Error, ErrorView, SDKError};
use crate::text::{copy_opt, opt_text};
use vstd::prelude::*;

verus! {

/// A todo, and a builder of the one request that acts on it.
///
/// Which request `Todo::endpoint` describes follows from the fields that are set:
/// - no uuid: create the todo, which needs a title and a status;
/// - a uuid, and neither title nor status: fetch the todo;
/// - a uuid, and a title or a status: update the todo, sending only what is set.
///
/// Deleting is asked for explicitly, with `Todo::delete`.
#[derive(Debug)]
#[must_use]
pub struct Todo {
    /// The base url.
    pub(crate) base_url: String,
    /// The client token.
    pub(crate) token: String,
    /// The todo uuid.
    pub(crate) uuid: Option<Uuid>,
    /// The todo title.
    pub(crate) title: Option<String>,
    /// Todo creation time.
    pub(crate) created_at: Option<u64>,
    /// Last todo update time.
    pub(crate) updated_at: Option<u64>,
    /// The todo status.
    pub(crate) status: Option<TodoStatus>,
}

/// The bytes of an optional uuid.
pub open spec fn opt_uuid(o: Option<Uuid>) -> Option<Seq<u8>> {
    match o {
        Some(u) => Some(u@),
        None => None,
    }
}

/// What a `Todo` holds.
pub struct TodoView {
    pub base_url: Seq<char>,
    pub token: Seq<char>,
    pub uuid: Option<Seq<u8>>,
    pub title: Option<Seq<char>>,
    pub created_at: Option<u64>,
    pub updated_at: Option<u64>,
    pub status: Option<TodoStatus>,
}

impl View for Todo {
    type V = TodoView;

    open(crate) spec fn view(&self) -> TodoView {
        TodoView {
            base_url: self.base_url@,
            token: self.token@,
            uuid: opt_uuid(self.uuid),
            title: opt_text(self.title),
            created_at: self.created_at,
            updated_at: self.updated_at,
            status: self.status,
        }
    }
}

/// What the server sends back for a todo.
#[derive(Debug)]
pub struct TodoReply {
    pub uuid: Option<Uuid>,
    pub title: Option<String>,
    pub status: Option<TodoStatus>,
    pub created_at: Option<u64>,
    pub updated_at: Option<u64>,
}

/// The text of the error for a todo that would be created without a title.
pub open spec fn missing_title_text() -> Seq<char> {
    "`title` needed to create a todo"@
}

/// The text of the error for a todo that would be created without a status.
pub open spec fn missing_status_text() -> Seq<char> {
    "`status` you cannot create a todo without a status, use `Todo::set_status` to set the status"@
}

/// The text of the error for a todo that would be deleted without a uuid.
pub open spec fn missing_uuid_text() -> Seq<char> {
    "`uuid` is required to delete a todo."@
}

impl TodoView {
    /// The request that completing the todo makes, or the error that stops it first.
    pub open spec fn endpoint(self) -> Result<EndpointsView, ErrorView> {
        match self.uuid {
            Some(id) => if self.title is None && self.status is None {
                Ok(EndpointsView::GetTodo { base_url: self.base_url, token: self.token, uuid: id })
            } else {
                Ok(
                    EndpointsView::UpdateTodo {
                        base_url: self.base_url,
                        token: self.token,
                        uuid: id,
                        title: self.title,
                        status: self.status,
                    },
                )
            },
            None => match self.title {
                None => Err(ErrorView::MissingField(missing_title_text())),
                Some(t) => match self.status {
                    None => Err(ErrorView::MissingField(missing_status_text())),
                    Some(s) => Ok(
                        EndpointsView::CreateTodo {
                            base_url: self.base_url,
                            token: self.token,
                            title: t,
                            status: s,
                        },
                    ),
                },
            },
        }
    }

    /// The request that deleting the todo makes, or the error that stops it first.
    pub open spec fn delete(self) -> Result<EndpointsView, ErrorView> {
        match self.uuid {
            Some(id) => Ok(
                EndpointsView::DeleteTodo { base_url: self.base_url, token: self.token, uuid: id },
            ),
            None => Err(ErrorView::MissingField(missing_uuid_text())),
        }
    }

    /// The todo that the server's reply describes, kept with this todo's base url and token.
    pub open spec fn replied(self, reply: TodoReply) -> TodoView {
        TodoView {
            base_url: self.base_url,
            token: self.token,
            uuid: opt_uuid(reply.uuid),
            title: opt_text(reply.title),
            created_at: reply.created_at,
            updated_at: reply.updated_at,
            status: reply.status,
        }
    }
}

/// The view of a result that holds an endpoint or an error.
pub open spec fn endpoint_result(r: Result<Endpoints, Error>) -> Result<EndpointsView, ErrorView> {
    match r {
        Ok(e) => Ok(e@),
        Err(e) => Err(e@),
    }
}

fn missing(text: &str) -> (r: Error)
    ensures
        r@ == ErrorView::MissingField(text@),
{
    Error::SDKError(SDKError::missing_field(text))
}

impl Todo {
    /// The request that completes the todo: create, fetch or update, as the
    /// fields that are set decide. A todo without a uuid needs a title and a
    /// status to be created; where one is missing, no request is made and a
    /// missing-field error is returned.
    pub fn endpoint(&self) -> (r: Result<Endpoints, Error>)
        ensures
            endpoint_result(r) == self@.endpoint(),
    {
        match &self.uuid {
            Some(uuid) => {
                if self.status.is_none() && self.title.is_none() {
                    Ok(
                        Endpoints::GetTodo {
                            base_url: self.base_url.clone(),
                            token: self.token.clone(),
                            uuid: *uuid,
                        },
                    )
                } else {
                    Ok(
                        Endpoints::UpdateTodo {
                            base_url: self.base_url.clone(),
                            token: self.token.clone(),
                            uuid: *uuid,
                            title: copy_opt(&self.title),
                            status: self.status,
                        },
                    )
                }
            },
            None => match &self.title {
                None => Err(missing("`title` needed to create a todo")),
                Some(title) => match self.status {
                    None => Err(
                        missing(
                            "`status` you cannot create a todo without a status, use `Todo::set_status` to set the status",
                        ),
                    ),
                    Some(status) => Ok(
                        Endpoints::CreateTodo {
                            base_url: self.base_url.clone(),
                            token: self.token.clone(),
                            title: title.clone(),
                            status,
                        },
                    ),
                },
            },
        }
    }

    /// The todo that the server's reply to `endpoint` describes. The reply does
    /// not carry the base url and the token: they are kept from this todo.
    pub fn with_reply(self, reply: TodoReply) -> (r: Todo)
        ensures
            r@ == self@.replied(reply),
    {
        Todo {
            base_url: self.base_url,
            token: self.token,
            uuid: reply.uuid,
            title: reply.title,
            created_at: reply.created_at,
            updated_at: reply.updated_at,
            status: reply.status,
        }
    }

    /// The request that deletes the todo from the server. A todo without a
    /// uuid cannot be deleted: no request is made and a missing-field error is
    /// returned.
    pub fn delete(self) -> (r: Result<Endpoints, Error>)
        ensures
            endpoint_result(r) == self@.delete(),
    {
        match self.uuid {
            Some(uuid) => Ok(Endpoints::DeleteTodo { base_url: self.base_url, token: self.token, uuid }),
            None => Err(missing("`uuid` is required to delete a todo.")),
        }
    }

    /// Returns the uuid of the todo, if the todo is created. Else it will return `None`.
    pub fn uuid(&self) -> (r: Option<Uuid>)
        ensures
            opt_uuid(r) == self@.uuid,
    {
        self.uuid
    }

    /// Set the title of the todo.
    pub fn set_title(self, title: &str) -> (r: Todo)
        ensures
            r@ == (TodoView { title: Some(title@), ..self@ }),
    {
        Todo { title: Some(title.to_owned()), ..self }
    }

    /// Returns the title of the todo.
    pub fn title(&self) -> (r: Option<&String>)
        ensures
            (match r {
                Some(t) => self@.title == Some(t@),
                None => self@.title is None,
            }),
    {
        match &self.title {
            Some(t) => Some(t),
            None => None,
        }
    }

    /// Set the status of the todo.
    pub fn set_status(self, status: TodoStatus) -> (r: Todo)
        ensures
            r@ == (TodoView { status: Some(status), ..self@ }),
    {
        Todo { status: Some(status), ..self }
    }

    /// Returns the status of the todo.
    pub fn status(&self) -> (r: Option<&TodoStatus>)
        ensures
            (match r {
                Some(s) => self@.status == Some(*s),
                None => self@.status is None,
            }),
    {
        match &self.status {
            Some(s) => Some(s),
            None => None,
        }
    }

    /// Returns the creation time of the todo.
    pub fn created_at(&self) -> (r: Option<u64>)
        ensures
            r == self@.created_at,
    {
        self.created_at
    }

    /// Returns the last update time of the todo.
    pub fn updated_at(&self) -> (r: Option<u64>)
        ensures
            r == self@.updated_at,
    {
        self.updated_at
    }
}

} // verus!
