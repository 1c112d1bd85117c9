//! What holds of every session, stated over the views of its parts.

use crate::command::CommandView;
use crate::confirm::affirmative;
use crate::report::{report_text, Operation, Outcome, RESET_CANCELLED, RESET_PROMPT};
use crate::request::{ReplyView, RequestView, StatementKind};
use crate::session::{ActionView, EventView, SessionView};
use crate::status::{lemma_status_round_trip, Status};
use crate::task::{RowView, Task, TaskView};
use vstd::prelude::*;

verus! {

/// A session starts in a state that fits its first action, with a statement
/// that has a value for each of its parameters, and takes two events at most.
pub proof fn lemma_begin_is_coherent(command: CommandView)
    ensures
        SessionView::begin(command).0.expects(SessionView::begin(command).1),
        SessionView::begin(command).0.remaining() <= 2,
        SessionView::begin(command).1 matches ActionView::Perform(statement)
            ==> statement.well_formed(),
{
}

/// Every step on an awaited event leaves a state that fits the next action,
/// and brings the session nearer to its end.
pub proof fn lemma_step_is_coherent(session: SessionView, event: EventView)
    requires
        session.awaits(event),
    ensures
        session.step(event).0.expects(session.step(event).1),
        session.step(event).0.remaining() < session.remaining(),
        session.step(event).1 matches ActionView::Perform(statement) ==> statement.well_formed(),
{
}

/// Whatever the store answers to the statement that a session asked for, the
/// session awaits it; and it awaits any line in answer to its question.
pub proof fn lemma_asked_event_is_awaited(session: SessionView, action: ActionView, event: EventView)
    requires
        session.expects(action),
        match (action, event) {
            (ActionView::Perform(statement), EventView::Reply(reply)) => reply.answers(
                statement.kind,
            ),
            (ActionView::Ask(_), EventView::Answer(_)) => true,
            _ => false,
        },
    ensures
        session.awaits(event),
{
}

/// One invocation sends one statement to the store at most: if its first
/// action is a statement, the reply ends it; and if a later action is a
/// statement, the first was the reset question and the reply ends it.
pub proof fn lemma_one_statement_at_most(command: CommandView, first: EventView, second: EventView)
    requires
        SessionView::begin(command).0.awaits(first),
    ensures
        ({
            let (s0, a0) = SessionView::begin(command);
            let (s1, a1) = s0.step(first);
            &&& !(a0 is Perform && a1 is Perform)
            &&& !(a1 is Ask)
            &&& a0 is Perform ==> s1 is Finished && a1.is_final()
            &&& s1.awaits(second) ==> {
                let (s2, a2) = s1.step(second);
                a0 is Ask && a1 is Perform && s2 is Finished && a2 is Say
            }
        }),
{
}

/// A reset that is not confirmed sends nothing to the store: the question is
/// asked, the answer is taken, and the session ends by saying that it was
/// cancelled.
pub proof fn lemma_declined_reset_sends_nothing(line: Seq<char>)
    requires
        !affirmative(line),
    ensures
        SessionView::begin(CommandView::Reset) == (
            SessionView::Confirming,
            ActionView::Ask(RESET_PROMPT@),
        ),
        SessionView::Confirming.step(EventView::Answer(line)) == (
            SessionView::Finished,
            ActionView::Say(RESET_CANCELLED@),
        ),
{
}

/// A reset that is confirmed sends the statement that drops the table, and
/// nothing else.
pub proof fn lemma_confirmed_reset_drops_table(line: Seq<char>)
    requires
        affirmative(line),
    ensures
        SessionView::Confirming.step(EventView::Answer(line)).1 == ActionView::Perform(
            RequestView::drop_table(),
        ),
{
}

/// For the operations on one task, success means that exactly one row
/// changed: a statement that ran and changed no row, or several, is not
/// reported as a success, and what is said then differs from what is said
/// on success.
pub proof fn lemma_success_needs_one_row(operation: Operation, id: Seq<char>, changed: usize)
    requires
        operation.counts_rows(),
    ensures
        Outcome::of(operation, Some(changed)) == Outcome::Success <==> changed == 1,
        changed != 1 ==> Outcome::of(operation, Some(changed)) == Outcome::NotFound,
        report_text(operation, Outcome::Success, id) != report_text(
            operation,
            Outcome::NotFound,
            id,
        ),
{
    reveal_strlit("Added task");
    reveal_strlit("Updated task with id = ");
    reveal_strlit("Deleted task with id = ");
    reveal_strlit("Could not add task");
    reveal_strlit("Could not find or update task with id = ");
    reveal_strlit("Could not find or delete task with id = ");
    let good = report_text(operation, Outcome::Success, id);
    let bad = report_text(operation, Outcome::NotFound, id);
    assert(good.len() != bad.len());
}

/// An update of a task that is not there, to which the store answers that
/// no row changed, ends with the message that the task could not be found,
/// followed by the identifier as it was typed.
pub proof fn lemma_missing_task_is_reported(
    id: Seq<char>,
    title: Seq<char>,
    status: Seq<char>,
    description: Seq<char>,
)
    ensures
        ({
            let (session, action) = SessionView::begin(
                CommandView::Update { id, title, status, description },
            );
            &&& action == ActionView::Perform(RequestView::update(id, title, status, description))
            &&& session.step(EventView::Reply(ReplyView::Changed(0))) == (
                SessionView::Finished,
                ActionView::Say("Could not find or update task with id = "@ + id),
            )
        }),
{
}

/// A row that holds what the statement of an add binds (the title, the
/// status text and the description, in the columns that the statement
/// names) is listed as a task with that title and description whose status
/// is `TODO`, under whatever identifier the store gave it.
pub proof fn lemma_added_row_lists_as_todo(title: Seq<char>, description: Seq<char>, id: i64)
    ensures
        ({
            let statement = RequestView::insert(title, description);
            let row = RowView {
                id,
                title: statement.params[0],
                status: statement.params[1],
                description: Some(statement.params[2]),
            };
            &&& SessionView::begin(CommandView::Add { title, description }).1
                == ActionView::Perform(statement)
            &&& statement.kind == StatementKind::Insert
            &&& Task::of_row(row) == Some(
                TaskView { id, title, description: Some(description), status: Status::TODO },
            )
        }),
{
    lemma_status_round_trip(Status::TODO);
}

/// Creating and dropping the table succeed whenever the store ran the
/// statement, whatever count of changed rows it reports: to initialize a
/// second time, when there is nothing left to create, is a success too.
pub proof fn lemma_table_operations_ignore_the_count(changed: usize)
    ensures
        ({
            let reply = EventView::Reply(ReplyView::Changed(changed));
            let initializing = SessionView::Changing { operation: Operation::Init, id: seq![] };
            let resetting = SessionView::Changing { operation: Operation::Reset, id: seq![] };
            let created = ActionView::Perform(RequestView::create_table());
            &&& SessionView::begin(CommandView::Init) == (initializing, created)
            &&& initializing.step(reply) == (
                SessionView::Finished,
                ActionView::Say("Initialized database"@),
            )
            &&& resetting.step(reply) == (SessionView::Finished, ActionView::Say("Reset database"@))
        }),
{
}

/// A delete sends the identifier to the store as it was typed, and reports
/// success, with that identifier, exactly when the store answers that one
/// row changed.
pub proof fn lemma_delete_reports_what_changed(id: Seq<char>, changed: usize)
    ensures
        ({
            let (session, action) = SessionView::begin(CommandView::Delete { id });
            let said = session.step(EventView::Reply(ReplyView::Changed(changed))).1;
            &&& action == ActionView::Perform(RequestView::delete(id))
            &&& changed == 1 ==> said == ActionView::Say("Deleted task with id = "@ + id)
            &&& changed != 1 ==> said == ActionView::Say(
                "Could not find or delete task with id = "@ + id,
            )
        }),
{
}

/// An update hands the status to the store as it was typed, so that the
/// store's own constraint decides on it; and a statement that the store
/// refuses is never reported as a success, whatever the operation.
pub proof fn lemma_store_error_is_reported(
    operation: Operation,
    id: Seq<char>,
    title: Seq<char>,
    status: Seq<char>,
    description: Seq<char>,
)
    ensures
        ({
            let update = CommandView::Update { id, title, status, description };
            let changing = SessionView::Changing { operation, id };
            &&& SessionView::begin(update).1 matches ActionView::Perform(statement)
                && statement.params[2] == status
            &&& changing.step(EventView::Reply(ReplyView::Failed)) == (
                SessionView::Finished,
                ActionView::Say(operation.failure_text()),
            )
            &&& operation.failure_text() != report_text(operation, Outcome::Success, id)
        }),
{
    reveal_strlit("Could not initialize database");
    reveal_strlit("Could not reset database");
    reveal_strlit("Could not add task.\n-a, --add 'title' 'description'");
    reveal_strlit("Could not update task.\n -u, --update 'id' 'title' 'status' 'description'");
    reveal_strlit("Could not delete task.\n -d, --delete 'id'");
    reveal_strlit("Initialized database");
    reveal_strlit("Reset database");
    reveal_strlit("Added task");
    reveal_strlit("Updated task with id = ");
    reveal_strlit("Deleted task with id = ");
    let good = report_text(operation, Outcome::Success, id);
    assert(operation.success_text().len() > 0);
    assert(good[0] == operation.success_text()[0]);
    assert(operation.failure_text()[0] == 'C');
    assert(good[0] != 'C');
}

} // verus!
