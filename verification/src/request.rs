//! What is asked of the store and what it answers: the statements, the
//! values bound to them, and the replies.

use crate::status::Status;
use crate::task::{Row, RowView};
use vstd::prelude::*;

verus! {

/// The six statements that the program ever sends to the store.
#[derive(Clone, Copy, Debug, PartialEq, Eq, Hash, Structural)]
pub enum StatementKind {
    CreateTable,
    DropTable,
    Insert,
    Select,
    Update,
    Delete,
}

impl StatementKind {
    /// The SQL text of the statement. Its parameters are written `?1`, `?2`
    /// and so on, and are bound in that order.
    pub open spec fn sql_text(self) -> Seq<char> {
        match self {
            StatementKind::CreateTable =>
                "create table if not exists tasks (title text not null, status text check(status in ('TODO', 'DOING', 'DONE')), description text);"@,
            StatementKind::DropTable => "drop table if exists tasks;"@,
            StatementKind::Insert =>
                "INSERT INTO tasks (title, status, description) values (?1, ?2, ?3);"@,
            StatementKind::Select => "SELECT rowid, title, status, description FROM tasks;"@,
            StatementKind::Update =>
                "UPDATE tasks SET title = ?2, status = ?3, description = ?4 WHERE rowid == ?1;"@,
            StatementKind::Delete => "DELETE FROM tasks WHERE rowid == ?1;"@,
        }
    }

    /// How many parameters the statement takes.
    pub open spec fn placeholders(self) -> nat {
        match self {
            StatementKind::Insert => 3,
            StatementKind::Update => 4,
            StatementKind::Delete => 1,
            _ => 0,
        }
    }

    /// Whether the statement answers with rows rather than with a count of
    /// changed rows.
    pub open spec fn returns_rows(self) -> bool {
        self == StatementKind::Select
    }

    /// The SQL text of the statement.
    pub fn sql(&self) -> (out: &'static str)
        ensures
            out@ == self.sql_text(),
    {
        match self {
            StatementKind::CreateTable =>
                "create table if not exists tasks (title text not null, status text check(status in ('TODO', 'DOING', 'DONE')), description text);",
            StatementKind::DropTable => "drop table if exists tasks;",
            StatementKind::Insert =>
                "INSERT INTO tasks (title, status, description) values (?1, ?2, ?3);",
            StatementKind::Select => "SELECT rowid, title, status, description FROM tasks;",
            StatementKind::Update =>
                "UPDATE tasks SET title = ?2, status = ?3, description = ?4 WHERE rowid == ?1;",
            StatementKind::Delete => "DELETE FROM tasks WHERE rowid == ?1;",
        }
    }

    /// Executable form of [`StatementKind::returns_rows`].
    pub fn is_query(&self) -> (out: bool)
        ensures
            out == self.returns_rows(),
    {
        match self {
            StatementKind::Select => true,
            _ => false,
        }
    }
}

/// A statement together with the text values bound to its parameters.
#[derive(Clone, Debug, PartialEq, Eq)]
pub struct Request {
    pub kind: StatementKind,
    pub params: Vec<String>,
}

/// What a [`Request`] holds, as plain values.
pub struct RequestView {
    pub kind: StatementKind,
    pub params: Seq<Seq<char>>,
}

impl View for Request {
    type V = RequestView;

    open spec fn view(&self) -> RequestView {
        RequestView { kind: self.kind, params: self.params.deep_view() }
    }
}

impl RequestView {
    /// A statement has one value for each of its parameters.
    pub open spec fn well_formed(self) -> bool {
        self.params.len() == self.kind.placeholders()
    }

    /// Creates the tasks table unless it is there already.
    pub open spec fn create_table() -> RequestView {
        RequestView { kind: StatementKind::CreateTable, params: seq![] }
    }

    /// Drops the tasks table if it is there.
    pub open spec fn drop_table() -> RequestView {
        RequestView { kind: StatementKind::DropTable, params: seq![] }
    }

    /// Inserts one task, whose status is always `TODO`.
    pub open spec fn insert(title: Seq<char>, description: Seq<char>) -> RequestView {
        RequestView {
            kind: StatementKind::Insert,
            params: seq![title, Status::TODO.text(), description],
        }
    }

    /// Lists every row.
    pub open spec fn select_all() -> RequestView {
        RequestView { kind: StatementKind::Select, params: seq![] }
    }

    /// Overwrites title, status and description of the row with the given
    /// identifier.
    pub open spec fn update(
        id: Seq<char>,
        title: Seq<char>,
        status: Seq<char>,
        description: Seq<char>,
    ) -> RequestView {
        RequestView { kind: StatementKind::Update, params: seq![id, title, status, description] }
    }

    /// Deletes the row with the given identifier.
    pub open spec fn delete(id: Seq<char>) -> RequestView {
        RequestView { kind: StatementKind::Delete, params: seq![id] }
    }
}

impl Request {
    pub fn create_table() -> (out: Request)
        ensures
            out@ == RequestView::create_table(),
    {
        let out = Request { kind: StatementKind::CreateTable, params: Vec::new() };
        assert(out@.params =~= seq![]);
        out
    }

    pub fn drop_table() -> (out: Request)
        ensures
            out@ == RequestView::drop_table(),
    {
        let out = Request { kind: StatementKind::DropTable, params: Vec::new() };
        assert(out@.params =~= seq![]);
        out
    }

    pub fn insert(title: &str, description: &str) -> (out: Request)
        ensures
            out@ == RequestView::insert(title@, description@),
    {
        let mut params: Vec<String> = Vec::new();
        params.push(title.to_owned());
        params.push(Status::TODO.to_string());
        params.push(description.to_owned());
        let out = Request { kind: StatementKind::Insert, params };
        assert(out@.params =~= seq![title@, Status::TODO.text(), description@]);
        out
    }

    pub fn select_all() -> (out: Request)
        ensures
            out@ == RequestView::select_all(),
    {
        let out = Request { kind: StatementKind::Select, params: Vec::new() };
        assert(out@.params =~= seq![]);
        out
    }

    pub fn update(id: &str, title: &str, status: &str, description: &str) -> (out: Request)
        ensures
            out@ == RequestView::update(id@, title@, status@, description@),
    {
        let mut params: Vec<String> = Vec::new();
        params.push(id.to_owned());
        params.push(title.to_owned());
        params.push(status.to_owned());
        params.push(description.to_owned());
        let out = Request { kind: StatementKind::Update, params };
        assert(out@.params =~= seq![id@, title@, status@, description@]);
        out
    }

    pub fn delete(id: &str) -> (out: Request)
        ensures
            out@ == RequestView::delete(id@),
    {
        let mut params: Vec<String> = Vec::new();
        params.push(id.to_owned());
        let out = Request { kind: StatementKind::Delete, params };
        assert(out@.params =~= seq![id@]);
        out
    }

    /// The SQL text of the statement.
    pub fn sql(&self) -> (out: &'static str)
        ensures
            out@ == self@.kind.sql_text(),
    {
        self.kind.sql()
    }
}

/// What the store answers to a statement.
#[derive(Clone, Debug, PartialEq, Eq)]
pub enum Reply {
    /// The statement ran and changed this many rows.
    Changed(usize),
    /// The statement ran and returned these rows, in the store's order.
    Rows(Vec<Row>),
    /// The store refused the statement or could not run it.
    Failed,
}

/// What a [`Reply`] holds, as plain values.
pub enum ReplyView {
    Changed(usize),
    Rows(Seq<RowView>),
    Failed,
}

impl View for Reply {
    type V = ReplyView;

    open spec fn view(&self) -> ReplyView {
        match self {
            Reply::Changed(n) => ReplyView::Changed(*n),
            Reply::Rows(rows) => ReplyView::Rows(rows.deep_view()),
            Reply::Failed => ReplyView::Failed,
        }
    }
}

impl ReplyView {
    /// Whether the reply is of the kind that a statement of kind `kind` is
    /// answered with: rows for the listing, a count of changed rows for the
    /// others, and a failure for either.
    pub open spec fn answers(self, kind: StatementKind) -> bool {
        match self {
            ReplyView::Changed(_) => !kind.returns_rows(),
            ReplyView::Rows(_) => kind.returns_rows(),
            ReplyView::Failed => true,
        }
    }
}

} // verus!
