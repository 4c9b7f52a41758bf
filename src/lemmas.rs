//! Laws of the library, proved over the contracts of its functions.
use crate::api_helper::{
    bearer_header, listing_query, opt_member, todo_uri, EndpointsView, Method, RequestView,
};
use crate::errors::ErrorView;
use crate::types::{
    missing_status_text, missing_title_text, missing_uuid_text, Todo, TodoOrder, TodoOrderBy,
    TodoStatus, Todos,
};
use vstd::prelude::*;

verus! {

/// `text` begins with the name `field` between backquotes.
pub open spec fn names_field(text: Seq<char>, field: Seq<char>) -> bool {
    &&& text.len() >= field.len() + 2
    &&& text.subrange(0, field.len() + 2int) == seq!['`'] + field + seq!['`']
}

/// A todo with no uuid and no title, but a status, is not created: completing
/// it stops before any request with a missing-field error that names `title`.
pub proof fn lemma_create_without_title(todo: Todo)
    requires
        todo@.uuid is None,
        todo@.title is None,
        todo@.status is Some,
    ensures
        todo@.endpoint() == Err::<EndpointsView, ErrorView>(
            ErrorView::MissingField(missing_title_text()),
        ),
        names_field(missing_title_text(), "title"@),
{
    reveal_strlit("title");
    reveal_strlit("`title` needed to create a todo");
    assert(missing_title_text().subrange(0, 7) =~= seq!['`'] + "title"@ + seq!['`']);
}

/// A todo with no uuid and no status, but a title, is not created: completing
/// it stops before any request with a missing-field error that names `status`.
pub proof fn lemma_create_without_status(todo: Todo)
    requires
        todo@.uuid is None,
        todo@.title is Some,
        todo@.status is None,
    ensures
        todo@.endpoint() == Err::<EndpointsView, ErrorView>(
            ErrorView::MissingField(missing_status_text()),
        ),
        names_field(missing_status_text(), "status"@),
{
    reveal_strlit("status");
    reveal_strlit(
        "`status` you cannot create a todo without a status, use `Todo::set_status` to set the status",
    );
    assert(missing_status_text().subrange(0, 8) =~= seq!['`'] + "status"@ + seq!['`']);
}

/// A todo with a uuid and neither title nor status is fetched: completing it
/// makes one authenticated GET of `/api/todos/{uuid}`, with no body and no query.
pub proof fn lemma_fetch_request(todo: Todo)
    requires
        todo@.uuid is Some,
        todo@.title is None,
        todo@.status is None,
    ensures
        todo@.endpoint() matches Ok(e) && e.request() == (RequestView {
            method: Method::Get,
            url: todo_uri(todo@.base_url, todo@.uuid->0),
            headers: seq![bearer_header(todo@.token)],
            body: None,
            query: seq![],
        }),
{
}

/// A todo with a uuid and a title or a status is updated: completing it makes
/// one authenticated PUT of `/api/todos/{uuid}`, whose body holds the title
/// only where it is set and the status only where it is set.
pub proof fn lemma_update_request(todo: Todo)
    requires
        todo@.uuid is Some,
        todo@.title is Some || todo@.status is Some,
    ensures
        todo@.endpoint() matches Ok(e) && e.request() == (RequestView {
            method: Method::Put,
            url: todo_uri(todo@.base_url, todo@.uuid->0),
            headers: seq![bearer_header(todo@.token)],
            body: Some(
                opt_member("title"@, todo@.title) + opt_member(
                    "status"@,
                    match todo@.status {
                        Some(s) => Some(s.token()),
                        None => None,
                    },
                ),
            ),
            query: seq![],
        }),
{
}

/// Deleting a todo with no uuid stops before any request with a missing-field
/// error that names `uuid`.
pub proof fn lemma_delete_without_uuid(todo: Todo)
    requires
        todo@.uuid is None,
    ensures
        todo@.delete() == Err::<EndpointsView, ErrorView>(
            ErrorView::MissingField(missing_uuid_text()),
        ),
        names_field(missing_uuid_text(), "uuid"@),
{
    reveal_strlit("uuid");
    reveal_strlit("`uuid` is required to delete a todo.");
    assert(missing_uuid_text().subrange(0, 6) =~= seq!['`'] + "uuid"@ + seq!['`']);
}

/// Deleting a todo with a uuid makes one authenticated DELETE of
/// `/api/todos/{uuid}`, with no body and no query.
pub proof fn lemma_delete_request(todo: Todo)
    requires
        todo@.uuid is Some,
    ensures
        todo@.delete() matches Ok(e) && e.request() == (RequestView {
            method: Method::Delete,
            url: todo_uri(todo@.base_url, todo@.uuid->0),
            headers: seq![bearer_header(todo@.token)],
            body: None,
            query: seq![],
        }),
{
}

/// A listing query with its defaults and no filter asks for
/// `limit=10&offset=0&order=newer&order_by=created_at`, and for no `status`
/// and no `title`.
pub proof fn lemma_default_listing_query(q: Todos)
    requires
        q@.limit == 10,
        q@.offset == 0,
        q@.order == TodoOrder::Newer,
        q@.order_by == TodoOrderBy::CreatedAt,
        q@.status is None,
        q@.title is None,
    ensures
        EndpointsView::GetTodos(q@).request().query == seq![
            ("limit"@, "10"@),
            ("offset"@, "0"@),
            ("order"@, "newer"@),
            ("order_by"@, "created_at"@),
        ],
{
    reveal_strlit("10");
    reveal_strlit("0");
    assert(crate::text::decimal(1) =~= seq!['1']);
    assert(crate::text::decimal(10) =~= "10"@);
    assert(crate::text::decimal(0) =~= "0"@);
    assert(listing_query(q@) =~= seq![
        ("limit"@, "10"@),
        ("offset"@, "0"@),
        ("order"@, "newer"@),
        ("order_by"@, "created_at"@),
    ]);
}

/// Decoding the token of a status gives the status back.
pub proof fn lemma_status_round_trip(s: TodoStatus)
    ensures
        TodoStatus::of_token(s.token()) == Some(s),
{
    reveal_strlit("completed");
    reveal_strlit("progress");
    reveal_strlit("pending");
    reveal_strlit("cancelled");
    assert("completed"@[1] != "cancelled"@[1]);
    assert("completed"@.len() != "progress"@.len());
    assert("completed"@.len() != "pending"@.len());
    assert("progress"@.len() != "pending"@.len());
    assert("progress"@.len() != "cancelled"@.len());
    assert("pending"@.len() != "cancelled"@.len());
}

} // verus!
