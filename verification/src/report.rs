//! How an operation ended, and every text that the program prints.

use vstd::prelude::*;
use vstd::string::StringExecFns;

verus! {

/// The operations that change the store.
#[derive(Clone, Copy, Debug, PartialEq, Eq, Hash, Structural)]
pub enum Operation {
    Init,
    Reset,
    Add,
    Update,
    Delete,
}

/// How an operation that changes the store ended. That the store raised no
/// error does not make an operation a success.
#[derive(Clone, Copy, Debug, PartialEq, Eq, Hash, Structural)]
pub enum Outcome {
    /// The statement ran and did what the operation asks.
    Success,
    /// The statement ran, and did not change exactly one row.
    NotFound,
    /// The store refused the statement or could not run it.
    StoreError,
}

/// The version that `--version` shows.
pub const VERSION: &'static str = "0.1.0";

/// The help text.
pub const USAGE: &'static str =
    "Usage: todo [options...]\n\n\n\n -h, --help                                Show help options \n\n -i, --init                                Initializes database \n\n -r, --reset                               Resets database \n\n -a, --add 'title' 'description'           Adds new task \n\n -l, --list                                Lists all tasks \n\n -u, --update 'id' 'title' 'status' 'description'   Updates task\n\n -d, --delete 'id'                         Deletes task\n\n -v, --version                             Shows the version";

/// The question that precedes a reset.
pub const RESET_PROMPT: &'static str = "Are you sure you want to reset the database? (y|N)";

/// What is said when the answer to [`RESET_PROMPT`] is not a yes.
pub const RESET_CANCELLED: &'static str = "Process cancelled";

/// What is said when the store cannot list the tasks.
pub const LIST_FAILED: &'static str = "Could not list tasks. \n -l, --list";

impl Operation {
    /// Whether the operation succeeds only if it changed exactly one row.
    /// Creating and dropping the table change no row.
    pub open spec fn counts_rows(self) -> bool {
        self == Operation::Add || self == Operation::Update || self == Operation::Delete
    }

    /// How many arguments the operation takes after its option.
    pub open spec fn arity(self) -> nat {
        match self {
            Operation::Add => 2,
            Operation::Update => 4,
            Operation::Delete => 1,
            _ => 0,
        }
    }

    /// What is said when the operation was given the wrong number of
    /// arguments.
    pub open spec fn hint_text(self) -> Seq<char> {
        match self {
            Operation::Init => "Invalid arguments.\nFormat must be: -i, --init"@,
            Operation::Reset => "Invalid arguments.\nFormat must be: -r, --reset"@,
            Operation::Add => "Invalid arguments.\nFormat must be: -a, --add 'title' 'description'"@,
            Operation::Update =>
                "Invalid arguments.\nFormat must be: -u, --update 'id' 'title' 'status' 'description'"@,
            Operation::Delete => "Invalid arguments.\nFormat must be: -d, --delete 'id'"@,
        }
    }

    /// Executable form of [`Operation::hint_text`].
    pub fn hint(&self) -> (out: &'static str)
        ensures
            out@ == self.hint_text(),
    {
        match self {
            Operation::Init => "Invalid arguments.\nFormat must be: -i, --init",
            Operation::Reset => "Invalid arguments.\nFormat must be: -r, --reset",
            Operation::Add => "Invalid arguments.\nFormat must be: -a, --add 'title' 'description'",
            Operation::Update =>
                "Invalid arguments.\nFormat must be: -u, --update 'id' 'title' 'status' 'description'",
            Operation::Delete => "Invalid arguments.\nFormat must be: -d, --delete 'id'",
        }
    }

    /// What is said when the store could not run the operation's statement.
    pub open spec fn failure_text(self) -> Seq<char> {
        match self {
            Operation::Init => "Could not initialize database"@,
            Operation::Reset => "Could not reset database"@,
            Operation::Add => "Could not add task.\n-a, --add 'title' 'description'"@,
            Operation::Update =>
                "Could not update task.\n -u, --update 'id' 'title' 'status' 'description'"@,
            Operation::Delete => "Could not delete task.\n -d, --delete 'id'"@,
        }
    }

    /// What is said when the statement ran and the operation succeeded,
    /// before the identifier where one follows.
    pub open spec fn success_text(self) -> Seq<char> {
        match self {
            Operation::Init => "Initialized database"@,
            Operation::Reset => "Reset database"@,
            Operation::Add => "Added task"@,
            Operation::Update => "Updated task with id = "@,
            Operation::Delete => "Deleted task with id = "@,
        }
    }

    /// What is said when the statement ran and did not change exactly one
    /// row, before the identifier where one follows.
    pub open spec fn not_found_text(self) -> Seq<char> {
        match self {
            Operation::Init => "Could not initialize database"@,
            Operation::Reset => "Could not reset database"@,
            Operation::Add => "Could not add task"@,
            Operation::Update => "Could not find or update task with id = "@,
            Operation::Delete => "Could not find or delete task with id = "@,
        }
    }

    /// Whether the operation's messages name the task by its identifier.
    pub open spec fn names_task(self) -> bool {
        self == Operation::Update || self == Operation::Delete
    }
}

impl Outcome {
    /// How an operation ended, from what the store answered: `None` where it
    /// failed, else the number of rows that the statement changed. An
    /// operation on a task succeeds only if exactly one row changed.
    pub open spec fn of(operation: Operation, changed: Option<usize>) -> Outcome {
        match changed {
            None => Outcome::StoreError,
            Some(n) => if !operation.counts_rows() || n == 1 {
                Outcome::Success
            } else {
                Outcome::NotFound
            },
        }
    }

    /// Executable form of [`Outcome::of`].
    pub fn classify(operation: Operation, changed: Option<usize>) -> (out: Outcome)
        ensures
            out == Outcome::of(operation, changed),
    {
        match changed {
            None => Outcome::StoreError,
            Some(n) => match operation {
                Operation::Init | Operation::Reset => Outcome::Success,
                _ => if n == 1 {
                    Outcome::Success
                } else {
                    Outcome::NotFound
                },
            },
        }
    }
}

/// The message for an operation that ended with `outcome`. `id` is the
/// identifier as it was typed; only the messages of update and delete that
/// follow a statement that ran show it.
pub open spec fn report_text(operation: Operation, outcome: Outcome, id: Seq<char>) -> Seq<char> {
    match outcome {
        Outcome::StoreError => operation.failure_text(),
        Outcome::Success => if operation.names_task() {
            operation.success_text() + id
        } else {
            operation.success_text()
        },
        Outcome::NotFound => if operation.names_task() {
            operation.not_found_text() + id
        } else {
            operation.not_found_text()
        },
    }
}

/// Executable form of [`report_text`].
pub fn report(operation: Operation, outcome: Outcome, id: &str) -> (out: String)
    ensures
        out@ == report_text(operation, outcome, id@),
{
    match outcome {
        Outcome::StoreError => {
            let text = match operation {
                Operation::Init => "Could not initialize database",
                Operation::Reset => "Could not reset database",
                Operation::Add => "Could not add task.\n-a, --add 'title' 'description'",
                Operation::Update =>
                    "Could not update task.\n -u, --update 'id' 'title' 'status' 'description'",
                Operation::Delete => "Could not delete task.\n -d, --delete 'id'",
            };
            text.to_owned()
        },
        Outcome::Success => match operation {
            Operation::Init => "Initialized database".to_owned(),
            Operation::Reset => "Reset database".to_owned(),
            Operation::Add => "Added task".to_owned(),
            Operation::Update => "Updated task with id = ".to_owned().concat(id),
            Operation::Delete => "Deleted task with id = ".to_owned().concat(id),
        },
        Outcome::NotFound => match operation {
            Operation::Init => "Could not initialize database".to_owned(),
            Operation::Reset => "Could not reset database".to_owned(),
            Operation::Add => "Could not add task".to_owned(),
            Operation::Update => "Could not find or update task with id = ".to_owned().concat(id),
            Operation::Delete => "Could not find or delete task with id = ".to_owned().concat(id),
        },
    }
}

/// The line that `--version` shows: the program's name, then the version in
/// double quotes.
pub open spec fn version_text() -> Seq<char> {
    "ToDo \""@ + VERSION@ + "\""@
}

/// Executable form of [`version_text`].
pub fn version_line() -> (out: String)
    ensures
        out@ == version_text(),
{
    "ToDo \"".to_owned().concat(VERSION).concat("\"")
}

} // verus!
