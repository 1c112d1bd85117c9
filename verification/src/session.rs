//! One invocation as a state machine: from a state and an event to the next
//! state and the next thing to do.

use crate::command::{Command, CommandView};
use crate::confirm::{affirmative, is_affirmative};
use crate::report::{
    report, report_text, version_line, version_text, Operation, Outcome, LIST_FAILED,
    RESET_CANCELLED, RESET_PROMPT, USAGE,
};
use crate::request::{Reply, ReplyView, Request, RequestView};
use crate::status::ParseStatusError;
use crate::task::{all_readable, first_unreadable, tasks_from_rows, tasks_of, Task, TaskView};
use vstd::prelude::*;

verus! {

/// What the outside world hands back to a session.
#[derive(Clone, Debug, PartialEq, Eq)]
pub enum Event {
    /// The store's answer to the statement of [`Action::Perform`].
    Reply(Reply),
    /// The line typed in answer to the question of [`Action::Ask`].
    Answer(String),
}

/// What an [`Event`] holds, as plain values.
pub enum EventView {
    Reply(ReplyView),
    Answer(Seq<char>),
}

impl View for Event {
    type V = EventView;

    open spec fn view(&self) -> EventView {
        match self {
            Event::Reply(reply) => EventView::Reply(reply@),
            Event::Answer(line) => EventView::Answer(line@),
        }
    }
}

/// What a session asks of the outside world.
#[derive(Clone, Debug, PartialEq, Eq)]
pub enum Action {
    /// Run the statement on the store and hand back its [`Reply`].
    Perform(Request),
    /// Print the question, read one line and hand it back.
    Ask(String),
    /// Print the text. The session is over.
    Say(String),
    /// Print the tasks. The session is over.
    Show(Vec<Task>),
    /// Give up: a stored status could not be read. The session is over.
    Abort(ParseStatusError),
}

/// What an [`Action`] holds, as plain values. An abort holds the text that
/// could not be read.
pub enum ActionView {
    Perform(RequestView),
    Ask(Seq<char>),
    Say(Seq<char>),
    Show(Seq<TaskView>),
    Abort(Seq<char>),
}

impl View for Action {
    type V = ActionView;

    open spec fn view(&self) -> ActionView {
        match self {
            Action::Perform(statement) => ActionView::Perform(statement@),
            Action::Ask(question) => ActionView::Ask(question@),
            Action::Say(text) => ActionView::Say(text@),
            Action::Show(tasks) => ActionView::Show(tasks.deep_view()),
            Action::Abort(error) => ActionView::Abort(error.text@),
        }
    }
}

impl ActionView {
    /// Whether the action ends the session.
    pub open spec fn is_final(self) -> bool {
        self is Say || self is Show || self is Abort
    }
}

/// Where one invocation stands.
#[derive(Clone, Debug, PartialEq, Eq)]
pub enum Session {
    /// The reset question was asked; its answer is awaited.
    Confirming,
    /// A statement that changes the store was sent; its reply is awaited.
    /// `id` is the identifier that the messages of update and delete show.
    Changing { operation: Operation, id: String },
    /// The listing statement was sent; its reply is awaited.
    Listing,
    /// Nothing is awaited.
    Finished,
}

/// What a [`Session`] holds, as plain values.
pub enum SessionView {
    Confirming,
    Changing { operation: Operation, id: Seq<char> },
    Listing,
    Finished,
}

impl View for Session {
    type V = SessionView;

    open spec fn view(&self) -> SessionView {
        match self {
            Session::Confirming => SessionView::Confirming,
            Session::Changing { operation, id } => SessionView::Changing {
                operation: *operation,
                id: id@,
            },
            Session::Listing => SessionView::Listing,
            Session::Finished => SessionView::Finished,
        }
    }
}

impl SessionView {
    /// How a command starts: the state it leaves the session in, and the first
    /// thing to do.
    pub open spec fn begin(command: CommandView) -> (SessionView, ActionView) {
        match command {
            CommandView::Init => (
                SessionView::Changing { operation: Operation::Init, id: seq![] },
                ActionView::Perform(RequestView::create_table()),
            ),
            CommandView::Reset => (SessionView::Confirming, ActionView::Ask(RESET_PROMPT@)),
            CommandView::Add { title, description } => (
                SessionView::Changing { operation: Operation::Add, id: seq![] },
                ActionView::Perform(RequestView::insert(title, description)),
            ),
            CommandView::List => (
                SessionView::Listing,
                ActionView::Perform(RequestView::select_all()),
            ),
            CommandView::Update { id, title, status, description } => (
                SessionView::Changing { operation: Operation::Update, id },
                ActionView::Perform(RequestView::update(id, title, status, description)),
            ),
            CommandView::Delete { id } => (
                SessionView::Changing { operation: Operation::Delete, id },
                ActionView::Perform(RequestView::delete(id)),
            ),
            CommandView::Version => (SessionView::Finished, ActionView::Say(version_text())),
            CommandView::Help => (SessionView::Finished, ActionView::Say(USAGE@)),
            CommandView::Malformed(operation) => (
                SessionView::Finished,
                ActionView::Say(operation.hint_text()),
            ),
        }
    }

    /// Whether the session awaits an event of this kind.
    pub open spec fn awaits(self, event: EventView) -> bool {
        match (self, event) {
            (SessionView::Confirming, EventView::Answer(_)) => true,
            (SessionView::Changing { .. }, EventView::Reply(ReplyView::Changed(_))) => true,
            (SessionView::Changing { .. }, EventView::Reply(ReplyView::Failed)) => true,
            (SessionView::Listing, EventView::Reply(ReplyView::Rows(_))) => true,
            (SessionView::Listing, EventView::Reply(ReplyView::Failed)) => true,
            _ => false,
        }
    }

    /// How the session goes on after an event that it awaits.
    pub open spec fn step(self, event: EventView) -> (SessionView, ActionView)
        recommends
            self.awaits(event),
    {
        match (self, event) {
            (SessionView::Confirming, EventView::Answer(line)) => if affirmative(line) {
                (
                    SessionView::Changing { operation: Operation::Reset, id: seq![] },
                    ActionView::Perform(RequestView::drop_table()),
                )
            } else {
                (SessionView::Finished, ActionView::Say(RESET_CANCELLED@))
            },
            (SessionView::Changing { operation, id }, EventView::Reply(ReplyView::Changed(n))) => (
                SessionView::Finished,
                ActionView::Say(report_text(operation, Outcome::of(operation, Some(n)), id)),
            ),
            (SessionView::Changing { operation, id }, EventView::Reply(ReplyView::Failed)) => (
                SessionView::Finished,
                ActionView::Say(report_text(operation, Outcome::StoreError, id)),
            ),
            (SessionView::Listing, EventView::Reply(ReplyView::Rows(rows))) => (
                SessionView::Finished,
                if all_readable(rows) {
                    ActionView::Show(tasks_of(rows))
                } else {
                    ActionView::Abort(first_unreadable(rows))
                },
            ),
            (SessionView::Listing, EventView::Reply(ReplyView::Failed)) => (
                SessionView::Finished,
                ActionView::Say(LIST_FAILED@),
            ),
            _ => (SessionView::Finished, ActionView::Say(seq![])),
        }
    }

    /// Whether `action` is what a session in this state has asked for: a
    /// question while it confirms, a statement of the fitting kind while it
    /// awaits the store, and a final action when it is over.
    pub open spec fn expects(self, action: ActionView) -> bool {
        match self {
            SessionView::Confirming => action is Ask,
            SessionView::Changing { .. } => action matches ActionView::Perform(statement)
                && !statement.kind.returns_rows(),
            SessionView::Listing => action matches ActionView::Perform(statement)
                && statement.kind.returns_rows(),
            SessionView::Finished => action.is_final(),
        }
    }

    /// An upper bound on the events that the session can still take.
    pub open spec fn remaining(self) -> nat {
        match self {
            SessionView::Confirming => 2,
            SessionView::Changing { .. } => 1,
            SessionView::Listing => 1,
            SessionView::Finished => 0,
        }
    }
}

impl Session {
    /// Starts the session of one command: the state it is left in, and the
    /// first thing to do.
    pub fn begin(command: Command) -> (out: (Session, Action))
        ensures
            (out.0@, out.1@) == SessionView::begin(command@),
    {
        match command {
            Command::Init => (
                Session::Changing { operation: Operation::Init, id: String::new() },
                Action::Perform(Request::create_table()),
            ),
            Command::Reset => (Session::Confirming, Action::Ask(RESET_PROMPT.to_owned())),
            Command::Add { title, description } => (
                Session::Changing { operation: Operation::Add, id: String::new() },
                Action::Perform(Request::insert(title.as_str(), description.as_str())),
            ),
            Command::List => (Session::Listing, Action::Perform(Request::select_all())),
            Command::Update { id, title, status, description } => {
                let statement = Request::update(
                    id.as_str(),
                    title.as_str(),
                    status.as_str(),
                    description.as_str(),
                );
                (
                    Session::Changing { operation: Operation::Update, id },
                    Action::Perform(statement),
                )
            },
            Command::Delete { id } => {
                let statement = Request::delete(id.as_str());
                (
                    Session::Changing { operation: Operation::Delete, id },
                    Action::Perform(statement),
                )
            },
            Command::Version => (Session::Finished, Action::Say(version_line())),
            Command::Help => (Session::Finished, Action::Say(USAGE.to_owned())),
            Command::Malformed(operation) => (
                Session::Finished,
                Action::Say(operation.hint().to_owned()),
            ),
        }
    }

    /// Whether the session is over.
    pub fn is_finished(&self) -> (out: bool)
        ensures
            out == (self@ is Finished),
    {
        match self {
            Session::Finished => true,
            _ => false,
        }
    }

    /// Takes an event and says how the session goes on: the next state and the
    /// next thing to do. An event that the session does not await is refused,
    /// and only such an event.
    pub fn step(self, event: Event) -> (out: Option<(Session, Action)>)
        ensures
            match out {
                Some((session, action)) => self@.awaits(event@) && (session@, action@)
                    == self@.step(event@),
                None => !self@.awaits(event@),
            },
    {
        match (self, event) {
            (Session::Confirming, Event::Answer(line)) => {
                if is_affirmative(line.as_str()) {
                    Some(
                        (
                            Session::Changing { operation: Operation::Reset, id: String::new() },
                            Action::Perform(Request::drop_table()),
                        ),
                    )
                } else {
                    Some((Session::Finished, Action::Say(RESET_CANCELLED.to_owned())))
                }
            },
            (Session::Changing { operation, id }, Event::Reply(Reply::Changed(n))) => {
                let outcome = Outcome::classify(operation, Some(n));
                Some((Session::Finished, Action::Say(report(operation, outcome, id.as_str()))))
            },
            (Session::Changing { operation, id }, Event::Reply(Reply::Failed)) => {
                Some(
                    (
                        Session::Finished,
                        Action::Say(report(operation, Outcome::StoreError, id.as_str())),
                    ),
                )
            },
            (Session::Listing, Event::Reply(Reply::Rows(rows))) => {
                match tasks_from_rows(&rows) {
                    Ok(tasks) => Some((Session::Finished, Action::Show(tasks))),
                    Err(error) => Some((Session::Finished, Action::Abort(error))),
                }
            },
            (Session::Listing, Event::Reply(Reply::Failed)) => {
                Some((Session::Finished, Action::Say(LIST_FAILED.to_owned())))
            },
            _ => None,
        }
    }
}

} // verus!
