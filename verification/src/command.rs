//! The command line: which option names which command, and how many
//! arguments each takes.

use crate::report::Operation;
use crate::text::str_eq;
use vstd::prelude::*;

verus! {

/// One invocation, read from the command line.
#[derive(Clone, Debug, PartialEq, Eq)]
pub enum Command {
    Init,
    Reset,
    Add { title: String, description: String },
    List,
    /// The identifier and the status are passed to the store as they were
    /// typed: the store decides whether they are valid.
    Update { id: String, title: String, status: String, description: String },
    Delete { id: String },
    Version,
    Help,
    /// An operation that was given the wrong number of arguments.
    Malformed(Operation),
}

/// What a [`Command`] holds, as plain values.
pub enum CommandView {
    Init,
    Reset,
    Add { title: Seq<char>, description: Seq<char> },
    List,
    Update { id: Seq<char>, title: Seq<char>, status: Seq<char>, description: Seq<char> },
    Delete { id: Seq<char> },
    Version,
    Help,
    Malformed(Operation),
}

impl View for Command {
    type V = CommandView;

    open spec fn view(&self) -> CommandView {
        match self {
            Command::Init => CommandView::Init,
            Command::Reset => CommandView::Reset,
            Command::Add { title, description } => CommandView::Add {
                title: title@,
                description: description@,
            },
            Command::List => CommandView::List,
            Command::Update { id, title, status, description } => CommandView::Update {
                id: id@,
                title: title@,
                status: status@,
                description: description@,
            },
            Command::Delete { id } => CommandView::Delete { id: id@ },
            Command::Version => CommandView::Version,
            Command::Help => CommandView::Help,
            Command::Malformed(operation) => CommandView::Malformed(*operation),
        }
    }
}

impl Command {
    /// The command that an option and the arguments after it stand for. An
    /// option that names no operation stands for the help text. The three
    /// operations that take arguments take exactly as many as
    /// [`Operation::arity`] says; the others ignore what follows them.
    pub open spec fn of_tokens(method: Seq<char>, arguments: Seq<Seq<char>>) -> CommandView {
        if method == "-i"@ || method == "--init"@ {
            CommandView::Init
        } else if method == "-r"@ || method == "--reset"@ {
            CommandView::Reset
        } else if method == "-a"@ || method == "--add"@ {
            if arguments.len() == Operation::Add.arity() {
                CommandView::Add { title: arguments[0], description: arguments[1] }
            } else {
                CommandView::Malformed(Operation::Add)
            }
        } else if method == "-l"@ || method == "--list"@ {
            CommandView::List
        } else if method == "-u"@ || method == "--update"@ {
            if arguments.len() == Operation::Update.arity() {
                CommandView::Update {
                    id: arguments[0],
                    title: arguments[1],
                    status: arguments[2],
                    description: arguments[3],
                }
            } else {
                CommandView::Malformed(Operation::Update)
            }
        } else if method == "-d"@ || method == "--delete"@ {
            if arguments.len() == Operation::Delete.arity() {
                CommandView::Delete { id: arguments[0] }
            } else {
                CommandView::Malformed(Operation::Delete)
            }
        } else if method == "-v"@ || method == "--version"@ {
            CommandView::Version
        } else {
            CommandView::Help
        }
    }

    /// Reads a command from the option and the arguments after it.
    pub fn parse(method: &str, arguments: &Vec<String>) -> (out: Command)
        ensures
            out@ == Command::of_tokens(method@, arguments.deep_view()),
    {
        if str_eq(method, "-i") || str_eq(method, "--init") {
            Command::Init
        } else if str_eq(method, "-r") || str_eq(method, "--reset") {
            Command::Reset
        } else if str_eq(method, "-a") || str_eq(method, "--add") {
            if arguments.len() == 2 {
                Command::Add { title: arguments[0].clone(), description: arguments[1].clone() }
            } else {
                Command::Malformed(Operation::Add)
            }
        } else if str_eq(method, "-l") || str_eq(method, "--list") {
            Command::List
        } else if str_eq(method, "-u") || str_eq(method, "--update") {
            if arguments.len() == 4 {
                Command::Update {
                    id: arguments[0].clone(),
                    title: arguments[1].clone(),
                    status: arguments[2].clone(),
                    description: arguments[3].clone(),
                }
            } else {
                Command::Malformed(Operation::Update)
            }
        } else if str_eq(method, "-d") || str_eq(method, "--delete") {
            if arguments.len() == 1 {
                Command::Delete { id: arguments[0].clone() }
            } else {
                Command::Malformed(Operation::Delete)
            }
        } else if str_eq(method, "-v") || str_eq(method, "--version") {
            Command::Version
        } else {
            Command::Help
        }
    }
}

} // verus!
