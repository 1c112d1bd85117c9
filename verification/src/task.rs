//! Tasks, and the stored rows that they are read from.

use crate::status::{ParseStatusError, Status};
use vstd::prelude::*;

verus! {

/// One task as the program shows it.
#[derive(Clone, Debug, PartialEq, Eq)]
pub struct Task {
    /// The row identifier that the store gave the task.
    pub id: i64,
    pub title: String,
    /// The store's description column, which may hold no value.
    pub description: Option<String>,
    pub status: Status,
}

/// What a [`Task`] holds, as plain values.
pub struct TaskView {
    pub id: i64,
    pub title: Seq<char>,
    pub description: Option<Seq<char>>,
    pub status: Status,
}

impl View for Task {
    type V = TaskView;

    open spec fn view(&self) -> TaskView {
        TaskView {
            id: self.id,
            title: self.title@,
            description: self.description.deep_view(),
            status: self.status,
        }
    }
}

impl DeepView for Task {
    type V = TaskView;

    open spec fn deep_view(&self) -> TaskView {
        self.view()
    }
}

/// One row of the tasks table as the listing statement returns it: the row
/// identifier, then the three columns. The status is still text.
#[derive(Clone, Debug, PartialEq, Eq)]
pub struct Row {
    pub id: i64,
    pub title: String,
    pub status: String,
    pub description: Option<String>,
}

/// What a [`Row`] holds, as plain values.
pub struct RowView {
    pub id: i64,
    pub title: Seq<char>,
    pub status: Seq<char>,
    pub description: Option<Seq<char>>,
}

impl View for Row {
    type V = RowView;

    open spec fn view(&self) -> RowView {
        RowView {
            id: self.id,
            title: self.title@,
            status: self.status@,
            description: self.description.deep_view(),
        }
    }
}

impl DeepView for Row {
    type V = RowView;

    open spec fn deep_view(&self) -> RowView {
        self.view()
    }
}

impl Task {
    /// The task that a row stands for: the same identifier, title and
    /// description, and the status that the row's text names. A row whose
    /// status text names no status stands for no task.
    pub open spec fn of_row(row: RowView) -> Option<TaskView> {
        match Status::parse(row.status) {
            Some(status) => Some(
                TaskView { id: row.id, title: row.title, description: row.description, status },
            ),
            None => None,
        }
    }

    /// Turns a stored row into a task, or reports the status text that could
    /// not be read.
    pub fn from_row(row: &Row) -> (out: Result<Task, ParseStatusError>)
        ensures
            match Task::of_row(row@) {
                Some(task) => out matches Ok(t) && t@ == task,
                None => out matches Err(e) && e.text@ == row@.status,
            },
    {
        match Status::from_str(row.status.as_str()) {
            Ok(status) => {
                let description = match &row.description {
                    Some(text) => Some(text.clone()),
                    None => None,
                };
                Ok(Task { id: row.id, title: row.title.clone(), description, status })
            },
            Err(e) => Err(e),
        }
    }
}

/// Whether every row of `rows` stands for a task.
pub open spec fn all_readable(rows: Seq<RowView>) -> bool {
    forall|i: int| 0 <= i < rows.len() ==> (#[trigger] Task::of_row(rows[i])) is Some
}

/// The tasks that `rows` stand for, in the same order.
pub open spec fn tasks_of(rows: Seq<RowView>) -> Seq<TaskView>
    recommends
        all_readable(rows),
{
    Seq::new(rows.len(), |i: int| Task::of_row(rows[i])->0)
}

/// The status text of the first row of `rows` that stands for no task.
pub open spec fn first_unreadable(rows: Seq<RowView>) -> Seq<char>
    recommends
        !all_readable(rows),
    decreases rows.len(),
{
    if rows.len() == 0 {
        seq![]
    } else if Task::of_row(rows[0]) is None {
        rows[0].status
    } else {
        first_unreadable(rows.drop_first())
    }
}

/// [`first_unreadable`] is the status text of the row at `i` if that row
/// stands for no task and every row before it stands for one.
pub proof fn lemma_first_unreadable_at(rows: Seq<RowView>, i: int)
    requires
        0 <= i < rows.len(),
        all_readable(rows.take(i)),
        Task::of_row(rows[i]) is None,
    ensures
        first_unreadable(rows) == rows[i].status,
        !all_readable(rows),
    decreases i,
{
    if i > 0 {
        assert(rows.take(i)[0] == rows[0]);
        assert(Task::of_row(rows.take(i)[0]) is Some);
        let rest = rows.drop_first();
        assert(rest.take(i - 1) =~= rows.take(i).drop_first());
        assert forall|k: int| 0 <= k < rest.take(i - 1).len() implies (#[trigger] Task::of_row(
            rest.take(i - 1)[k],
        )) is Some by {
            assert(rest.take(i - 1)[k] == rows.take(i)[k + 1]);
        }
        lemma_first_unreadable_at(rest, i - 1);
    }
}

/// Turns the rows of a listing into tasks, keeping their order. The first row
/// whose status cannot be read ends the listing with its error.
pub fn tasks_from_rows(rows: &Vec<Row>) -> (out: Result<Vec<Task>, ParseStatusError>)
    ensures
        if all_readable(rows.deep_view()) {
            out matches Ok(tasks) && tasks.deep_view() == tasks_of(rows.deep_view())
        } else {
            out matches Err(e) && e.text@ == first_unreadable(rows.deep_view())
        },
{
    let ghost all = rows.deep_view();
    let mut tasks: Vec<Task> = Vec::new();
    let mut i: usize = 0;
    while i < rows.len()
        invariant
            i <= rows.len(),
            all == rows.deep_view(),
            tasks.len() == i,
            all_readable(all.take(i as int)),
            tasks.deep_view() == tasks_of(all.take(i as int)),
        decreases rows.len() - i,
    {
        assert(rows[i as int]@ == all[i as int]);
        match Task::from_row(&rows[i]) {
            Ok(task) => {
                let ghost prior = tasks@;
                tasks.push(task);
                proof {
                    let before = all.take(i as int);
                    let after = all.take(i + 1);
                    assert forall|k: int| 0 <= k < after.len() implies (#[trigger] Task::of_row(
                        after[k],
                    )) is Some by {
                        if k < i {
                            assert(after[k] == before[k]);
                        }
                    }
                    assert(tasks.deep_view() =~= tasks_of(after)) by {
                        assert forall|k: int| 0 <= k < i implies tasks.deep_view()[k] == tasks_of(
                            after,
                        )[k] by {
                            assert(tasks@[k] == prior[k]);
                            assert(tasks_of(before)[k] == Task::of_row(before[k])->0);
                            assert(after[k] == before[k]);
                        }
                        assert(tasks@[i as int] == task);
                        assert(after[i as int] == all[i as int]);
                    }
                }
            },
            Err(e) => {
                proof {
                    lemma_first_unreadable_at(all, i as int);
                }
                return Err(e);
            },
        }
        i += 1;
    }
    proof {
        assert(all.take(rows.len() as int) =~= all);
    }
    Ok(tasks)
}

} // verus!
