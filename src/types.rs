//! The values that the client hands out: users, to-do items and listing queries.
mod id;
mod status;
mod todo;
mod todos;
mod user;

pub use id::{hex_digit, hex_text, hyphenated_text, Uuid};
pub use status::{TodoOrder, TodoOrderBy, TodoStatus};
pub use todo::{
    endpoint_result, missing_status_text, missing_title_text, missing_uuid_text, opt_uuid, Todo,
    TodoReply, TodoView,
};
pub use todos::{Todos, TodosView};
pub use user::{User, UserReply, UserView};
