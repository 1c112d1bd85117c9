use todo::command::Command;
use todo::report::Operation;
use todo::request::{Reply, Request};
use todo::session::{Action, Event, Session};
use todo::status::{ParseStatusError, Status};
use todo::task::{Row, Task};

fn text(s: &str) -> String {
    s.to_string()
}

fn changing(operation: Operation, id: &str) -> Session {
    Session::Changing { operation, id: text(id) }
}

fn said(message: &str) -> Option<(Session, Action)> {
    Some((Session::Finished, Action::Say(text(message))))
}

#[test]
fn init_sends_the_create_statement() {
    assert_eq!(
        Session::begin(Command::Init),
        (changing(Operation::Init, ""), Action::Perform(Request::create_table()))
    );
}

#[test]
fn reset_asks_before_anything_else() {
    assert_eq!(
        Session::begin(Command::Reset),
        (
            Session::Confirming,
            Action::Ask(text("Are you sure you want to reset the database? (y|N)"))
        )
    );
}

#[test]
fn add_sends_the_insert_statement() {
    assert_eq!(
        Session::begin(Command::Add { title: text("Buy milk"), description: text("2%") }),
        (changing(Operation::Add, ""), Action::Perform(Request::insert("Buy milk", "2%")))
    );
}

#[test]
fn list_sends_the_select_statement() {
    assert_eq!(
        Session::begin(Command::List),
        (Session::Listing, Action::Perform(Request::select_all()))
    );
}

#[test]
fn update_sends_the_update_statement_and_keeps_the_id() {
    assert_eq!(
        Session::begin(Command::Update {
            id: text("4"),
            title: text("t"),
            status: text("DONE"),
            description: text("d"),
        }),
        (
            changing(Operation::Update, "4"),
            Action::Perform(Request::update("4", "t", "DONE", "d"))
        )
    );
}

#[test]
fn delete_sends_the_delete_statement_and_keeps_the_id() {
    assert_eq!(
        Session::begin(Command::Delete { id: text("4") }),
        (changing(Operation::Delete, "4"), Action::Perform(Request::delete("4")))
    );
}

#[test]
fn version_help_and_malformed_commands_end_at_once() {
    assert_eq!(
        Session::begin(Command::Version),
        (Session::Finished, Action::Say(text("ToDo \"0.1.0\"")))
    );
    assert_eq!(
        Session::begin(Command::Help),
        (Session::Finished, Action::Say(text(todo::report::USAGE)))
    );
    assert_eq!(
        Session::begin(Command::Malformed(Operation::Add)),
        (
            Session::Finished,
            Action::Say(text("Invalid arguments.\nFormat must be: -a, --add 'title' 'description'"))
        )
    );
    assert_eq!(
        Session::begin(Command::Malformed(Operation::Update)),
        (
            Session::Finished,
            Action::Say(text(
                "Invalid arguments.\nFormat must be: -u, --update 'id' 'title' 'status' 'description'"
            ))
        )
    );
    assert_eq!(
        Session::begin(Command::Malformed(Operation::Delete)),
        (
            Session::Finished,
            Action::Say(text("Invalid arguments.\nFormat must be: -d, --delete 'id'"))
        )
    );
}

#[test]
fn a_confirmed_reset_drops_the_table() {
    for line in ["y\n", "yes\n", "YES\n", " Yes "] {
        assert_eq!(
            Session::Confirming.step(Event::Answer(text(line))),
            Some((changing(Operation::Reset, ""), Action::Perform(Request::drop_table())))
        );
    }
}

#[test]
fn a_declined_reset_sends_nothing() {
    for line in ["\n", "n\n", "N\n", "no\n", "yes please\n", ""] {
        assert_eq!(Session::Confirming.step(Event::Answer(text(line))), said("Process cancelled"));
    }
}

#[test]
fn one_changed_row_is_a_success() {
    let one = || Event::Reply(Reply::Changed(1));
    assert_eq!(changing(Operation::Add, "").step(one()), said("Added task"));
    assert_eq!(changing(Operation::Update, "4").step(one()), said("Updated task with id = 4"));
    assert_eq!(changing(Operation::Delete, "4").step(one()), said("Deleted task with id = 4"));
}

#[test]
fn no_changed_row_is_not_a_success() {
    let none = || Event::Reply(Reply::Changed(0));
    assert_eq!(changing(Operation::Add, "").step(none()), said("Could not add task"));
    assert_eq!(
        changing(Operation::Update, "4").step(none()),
        said("Could not find or update task with id = 4")
    );
    assert_eq!(
        changing(Operation::Delete, "4").step(none()),
        said("Could not find or delete task with id = 4")
    );
}

#[test]
fn several_changed_rows_are_not_a_success() {
    let two = || Event::Reply(Reply::Changed(2));
    assert_eq!(changing(Operation::Add, "").step(two()), said("Could not add task"));
    assert_eq!(
        changing(Operation::Update, "4").step(two()),
        said("Could not find or update task with id = 4")
    );
    assert_eq!(
        changing(Operation::Delete, "4").step(two()),
        said("Could not find or delete task with id = 4")
    );
}

#[test]
fn table_statements_succeed_whatever_the_count() {
    for changed in [0, 1, 5] {
        assert_eq!(
            changing(Operation::Init, "").step(Event::Reply(Reply::Changed(changed))),
            said("Initialized database")
        );
        assert_eq!(
            changing(Operation::Reset, "").step(Event::Reply(Reply::Changed(changed))),
            said("Reset database")
        );
    }
}

#[test]
fn a_failed_statement_is_reported() {
    let failed = || Event::Reply(Reply::Failed);
    assert_eq!(changing(Operation::Init, "").step(failed()), said("Could not initialize database"));
    assert_eq!(changing(Operation::Reset, "").step(failed()), said("Could not reset database"));
    assert_eq!(
        changing(Operation::Add, "").step(failed()),
        said("Could not add task.\n-a, --add 'title' 'description'")
    );
    assert_eq!(
        changing(Operation::Update, "4").step(failed()),
        said("Could not update task.\n -u, --update 'id' 'title' 'status' 'description'")
    );
    assert_eq!(
        changing(Operation::Delete, "4").step(failed()),
        said("Could not delete task.\n -d, --delete 'id'")
    );
    assert_eq!(Session::Listing.step(failed()), said("Could not list tasks. \n -l, --list"));
}

#[test]
fn listed_rows_are_shown_as_tasks() {
    let rows = vec![
        Row { id: 1, title: text("a"), status: text("TODO"), description: Some(text("x")) },
        Row { id: 2, title: text("b"), status: text("DONE"), description: None },
    ];
    assert_eq!(
        Session::Listing.step(Event::Reply(Reply::Rows(rows))),
        Some((
            Session::Finished,
            Action::Show(vec![
                Task { id: 1, title: text("a"), description: Some(text("x")), status: Status::TODO },
                Task { id: 2, title: text("b"), description: None, status: Status::DONE },
            ])
        ))
    );
    assert_eq!(
        Session::Listing.step(Event::Reply(Reply::Rows(vec![]))),
        Some((Session::Finished, Action::Show(vec![])))
    );
}

#[test]
fn an_unreadable_status_aborts_the_listing() {
    let rows = vec![
        Row { id: 1, title: text("a"), status: text("TODO"), description: None },
        Row { id: 2, title: text("b"), status: text("LATER"), description: None },
        Row { id: 3, title: text("c"), status: text("NEVER"), description: None },
    ];
    assert_eq!(
        Session::Listing.step(Event::Reply(Reply::Rows(rows))),
        Some((Session::Finished, Action::Abort(ParseStatusError { text: text("LATER") })))
    );
}

#[test]
fn events_that_are_not_awaited_are_refused() {
    let events = || {
        vec![
            Event::Answer(text("yes")),
            Event::Reply(Reply::Changed(1)),
            Event::Reply(Reply::Rows(vec![])),
            Event::Reply(Reply::Failed),
        ]
    };
    for event in events() {
        assert_eq!(Session::Finished.step(event), None);
    }
    assert_eq!(Session::Confirming.step(Event::Reply(Reply::Changed(1))), None);
    assert_eq!(Session::Confirming.step(Event::Reply(Reply::Rows(vec![]))), None);
    assert_eq!(Session::Confirming.step(Event::Reply(Reply::Failed)), None);
    assert_eq!(changing(Operation::Add, "").step(Event::Answer(text("yes"))), None);
    assert_eq!(changing(Operation::Add, "").step(Event::Reply(Reply::Rows(vec![]))), None);
    assert_eq!(Session::Listing.step(Event::Answer(text("yes"))), None);
    assert_eq!(Session::Listing.step(Event::Reply(Reply::Changed(0))), None);
}

#[test]
fn is_finished_tells_the_end() {
    assert!(Session::Finished.is_finished());
    assert!(!Session::Confirming.is_finished());
    assert!(!Session::Listing.is_finished());
    assert!(!changing(Operation::Init, "").is_finished());
}

#[test]
fn every_command_ends_within_two_events() {
    let commands = vec![
        Command::Init,
        Command::Reset,
        Command::Add { title: text("t"), description: text("d") },
        Command::List,
        Command::Update { id: text("1"), title: text("t"), status: text("DONE"), description: text("d") },
        Command::Delete { id: text("1") },
        Command::Version,
        Command::Help,
        Command::Malformed(Operation::Add),
    ];
    for command in commands {
        for answer in ["yes", "no"] {
            let (mut session, mut action) = Session::begin(command.clone());
            let mut events = 0;
            let mut statements = 0;
            while !session.is_finished() {
                let event = match &action {
                    Action::Perform(statement) => {
                        statements += 1;
                        if statement.kind.is_query() {
                            Event::Reply(Reply::Rows(vec![]))
                        } else {
                            Event::Reply(Reply::Changed(1))
                        }
                    }
                    Action::Ask(_) => Event::Answer(text(answer)),
                    _ => unreachable!(),
                };
                let (next, then) = session.step(event).expect("the event is awaited");
                session = next;
                action = then;
                events += 1;
            }
            assert!(events <= 2);
            assert!(statements <= 1);
            assert!(matches!(action, Action::Say(_) | Action::Show(_)));
        }
    }
}
