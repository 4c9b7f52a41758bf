use vstd::prelude::*;

verus! {

/// The todo status.
#[derive(Clone, Copy, Debug, PartialEq, Eq, Structural)]
pub enum TodoStatus {
    /// The todo is completed.
    Completed,
    /// The todo is in progress.
    Progress,
    /// The todo is pending.
    Pending,
    /// The todo is cancelled.
    Cancelled,
}

impl TodoStatus {
    /// The lower-case token that stands for the status on the wire.
    pub open spec fn token(self) -> Seq<char> {
        match self {
            TodoStatus::Completed => "completed"@,
            TodoStatus::Progress => "progress"@,
            TodoStatus::Pending => "pending"@,
            TodoStatus::Cancelled => "cancelled"@,
        }
    }

    /// The status whose token is `t`, if any.
    pub open spec fn of_token(t: Seq<char>) -> Option<TodoStatus> {
        if t == "completed"@ {
            Some(TodoStatus::Completed)
        } else if t == "progress"@ {
            Some(TodoStatus::Progress)
        } else if t == "pending"@ {
            Some(TodoStatus::Pending)
        } else if t == "cancelled"@ {
            Some(TodoStatus::Cancelled)
        } else {
            None
        }
    }

    /// The lower-case token of the status.
    pub fn to_string(&self) -> (r: String)
        ensures
            r@ == self.token(),
    {
        match self {
            TodoStatus::Cancelled => "cancelled",
            TodoStatus::Completed => "completed",
            TodoStatus::Progress => "progress",
            TodoStatus::Pending => "pending",
        }.to_owned()
    }

    /// The status that a token stands for, or `None` where it names none.
    pub fn from_token(token: &str) -> (r: Option<TodoStatus>)
        ensures
            r == TodoStatus::of_token(token@),
    {
        let t = token.to_owned();
        if t == "completed".to_owned() {
            Some(TodoStatus::Completed)
        } else if t == "progress".to_owned() {
            Some(TodoStatus::Progress)
        } else if t == "pending".to_owned() {
            Some(TodoStatus::Pending)
        } else if t == "cancelled".to_owned() {
            Some(TodoStatus::Cancelled)
        } else {
            None
        }
    }
}

/// The order of a listing. (`newer`, `older`)
#[derive(Clone, Copy, Debug, PartialEq, Eq, Structural)]
pub enum TodoOrder {
    /// The newest todos first. (default)
    Newer,
    /// The oldest todos first.
    Older,
}

impl Default for TodoOrder {
    fn default() -> (r: TodoOrder)
        ensures
            r == TodoOrder::Newer,
    {
        TodoOrder::Newer
    }
}

impl TodoOrder {
    /// The token that stands for the order in a query.
    pub open spec fn token(self) -> Seq<char> {
        match self {
            TodoOrder::Newer => "newer"@,
            TodoOrder::Older => "older"@,
        }
    }

    /// The token of the order.
    pub fn to_string(&self) -> (r: String)
        ensures
            r@ == self.token(),
    {
        match self {
            TodoOrder::Newer => "newer".to_owned(),
            TodoOrder::Older => "older".to_owned(),
        }
    }
}

/// The timestamp that a listing is ordered by. (`created_at`, `updated_at`)
#[derive(Clone, Copy, Debug, PartialEq, Eq, Structural)]
pub enum TodoOrderBy {
    /// Order by creation time. (default)
    CreatedAt,
    /// Order by last update time.
    UpdatedAt,
}

impl Default for TodoOrderBy {
    fn default() -> (r: TodoOrderBy)
        ensures
            r == TodoOrderBy::CreatedAt,
    {
        TodoOrderBy::CreatedAt
    }
}

impl TodoOrderBy {
    /// The token that stands for the ordering key in a query.
    pub open spec fn token(self) -> Seq<char> {
        match self {
            TodoOrderBy::CreatedAt => "created_at"@,
            TodoOrderBy::UpdatedAt => "updated_at"@,
        }
    }

    /// The token of the ordering key.
    pub fn to_string(&self) -> (r: String)
        ensures
            r@ == self.token(),
    {
        match self {
            TodoOrderBy::CreatedAt => "created_at".to_owned(),
            TodoOrderBy::UpdatedAt => "updated_at".to_owned(),
        }
    }
}

} // verus!
