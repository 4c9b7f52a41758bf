use super::status::{TodoOrder, TodoOrderBy, TodoStatus};
use super::todo::{opt_uuid, Todo, TodoReply, TodoView};
use crate::api_helper::{Endpoints, EndpointsView};
use crate::text::{copy_opt, opt_text};
use vstd::prelude::*;

verus! {

/// A listing query: which todos to ask for, and in which order.
/// It is sent with `Todos::endpoint`; the server does the filtering and the sorting.
#[derive(Debug)]
pub struct Todos {
    /// Base url of the server.
    pub(crate) base_url: String,
    /// The client token.
    pub(crate) token: String,
    /// The largest number of todos in the list.
    pub(crate) limit: usize,
    /// The number of todos skipped.
    pub(crate) offset: usize,
    /// The total number of todos that match the filters, as the server reports it.
    pub(crate) total: usize,
    /// The order of the todos. (newer, older)
    pub(crate) order: TodoOrder,
    /// The ordering key. (created_at, updated_at)
    pub(crate) order_by: TodoOrderBy,
    /// Status filter.
    pub(crate) status: Option<TodoStatus>,
    /// Title filter.
    pub(crate) title: Option<String>,
}

/// What a `Todos` query holds.
pub struct TodosView {
    pub base_url: Seq<char>,
    pub token: Seq<char>,
    pub limit: usize,
    pub offset: usize,
    pub total: usize,
    pub order: TodoOrder,
    pub order_by: TodoOrderBy,
    pub status: Option<TodoStatus>,
    pub title: Option<Seq<char>>,
}

impl View for Todos {
    type V = TodosView;

    open(crate) spec fn view(&self) -> TodosView {
        TodosView {
            base_url: self.base_url@,
            token: self.token@,
            limit: self.limit,
            offset: self.offset,
            total: self.total,
            order: self.order,
            order_by: self.order_by,
            status: self.status,
            title: opt_text(self.title),
        }
    }
}

impl TodosView {
    /// The todo that one item of the server's listing describes, kept with the
    /// query's base url and token so that it can be acted on later.
    pub open spec fn item(self, reply: TodoReply) -> TodoView {
        TodoView {
            base_url: self.base_url,
            token: self.token,
            uuid: opt_uuid(reply.uuid),
            title: opt_text(reply.title),
            created_at: reply.created_at,
            updated_at: reply.updated_at,
            status: reply.status,
        }
    }
}

impl Clone for Todos {
    fn clone(&self) -> (r: Todos)
        ensures
            r@ == self@,
    {
        Todos {
            base_url: self.base_url.clone(),
            token: self.token.clone(),
            limit: self.limit,
            offset: self.offset,
            total: self.total,
            order: self.order,
            order_by: self.order_by,
            status: self.status,
            title: copy_opt(&self.title),
        }
    }
}

impl Todos {
    /// A query with the defaults: the first 10 todos, newest created first, no filter.
    pub fn new(base_url: &str, token: &str) -> (r: Todos)
        ensures
            r@ == (TodosView {
                base_url: base_url@,
                token: token@,
                limit: 10,
                offset: 0,
                total: 0,
                order: TodoOrder::Newer,
                order_by: TodoOrderBy::CreatedAt,
                status: None,
                title: None,
            }),
    {
        Todos {
            base_url: base_url.to_owned(),
            token: token.to_owned(),
            limit: 10,
            offset: 0,
            total: 0,
            order: TodoOrder::default(),
            order_by: TodoOrderBy::default(),
            status: None,
            title: None,
        }
    }

    /// Set the largest number of todos in the list. (default: 10)
    pub fn limit(self, limit: usize) -> (r: Todos)
        ensures
            r@ == (TodosView { limit, ..self@ }),
    {
        Todos { limit, ..self }
    }

    /// Set the number of todos skipped. (default: 0)
    pub fn offset(self, offset: usize) -> (r: Todos)
        ensures
            r@ == (TodosView { offset, ..self@ }),
    {
        Todos { offset, ..self }
    }

    /// Set the order of the todos. (default: [`TodoOrder::Newer`])
    pub fn order(self, order: TodoOrder) -> (r: Todos)
        ensures
            r@ == (TodosView { order, ..self@ }),
    {
        Todos { order, ..self }
    }

    /// Set the ordering key of the todos. (default: [`TodoOrderBy::CreatedAt`])
    pub fn order_by(self, order_by: TodoOrderBy) -> (r: Todos)
        ensures
            r@ == (TodosView { order_by, ..self@ }),
    {
        Todos { order_by, ..self }
    }

    /// Keep only the todos with this status.
    pub fn status(self, status: TodoStatus) -> (r: Todos)
        ensures
            r@ == (TodosView { status: Some(status), ..self@ }),
    {
        Todos { status: Some(status), ..self }
    }

    /// Keep only the todos whose title holds this text.
    pub fn title(self, title: &str) -> (r: Todos)
        ensures
            r@ == (TodosView { title: Some(title@), ..self@ }),
    {
        Todos { title: Some(title.to_owned()), ..self }
    }

    /// The request that lists the todos, with every field of the query as a
    /// query parameter (the filters only where they are set).
    pub fn endpoint(&self) -> (r: Endpoints)
        ensures
            r@ == EndpointsView::GetTodos(self@),
    {
        Endpoints::GetTodos(self.clone())
    }

    /// The todos of the server's listing, in the order the server sent them,
    /// each with the query's base url and token.
    pub fn with_reply(&self, data: Vec<TodoReply>) -> (r: Vec<Todo>)
        ensures
            r@.len() == data@.len(),
            forall|i: int| 0 <= i < data@.len() ==> (#[trigger] r@[i])@ == self@.item(data@[i]),
    {
        let mut out: Vec<Todo> = Vec::new();
        let mut i: usize = 0;
        while i < data.len()
            invariant
                i <= data@.len(),
                out@.len() == i,
                forall|j: int| 0 <= j < i ==> (#[trigger] out@[j])@ == self@.item(data@[j]),
            decreases data@.len() - i,
        {
            let reply = &data[i];
            out.push(
                Todo {
                    base_url: self.base_url.clone(),
                    token: self.token.clone(),
                    uuid: reply.uuid,
                    title: copy_opt(&reply.title),
                    created_at: reply.created_at,
                    updated_at: reply.updated_at,
                    status: reply.status,
                },
            );
            i = i + 1;
        }
        out
    }
}

} // verus!
