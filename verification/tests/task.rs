use todo::status::{ParseStatusError, Status};
use todo::task::{tasks_from_rows, Row, Task};

fn row(id: i64, title: &str, status: &str, description: Option<&str>) -> Row {
    Row {
        id,
        title: title.to_string(),
        status: status.to_string(),
        description: description.map(|d| d.to_string()),
    }
}

fn task(id: i64, title: &str, status: Status, description: Option<&str>) -> Task {
    Task { id, title: title.to_string(), description: description.map(|d| d.to_string()), status }
}

#[test]
fn a_row_becomes_a_task() {
    assert_eq!(
        Task::from_row(&row(1, "Buy milk", "TODO", Some("2%"))),
        Ok(task(1, "Buy milk", Status::TODO, Some("2%")))
    );
    assert_eq!(
        Task::from_row(&row(-5, "", "DONE", None)),
        Ok(task(-5, "", Status::DONE, None))
    );
    assert_eq!(
        Task::from_row(&row(i64::MAX, "t", "DOING", Some(""))),
        Ok(task(i64::MAX, "t", Status::DOING, Some("")))
    );
}

#[test]
fn a_row_with_an_unknown_status_is_rejected() {
    assert_eq!(
        Task::from_row(&row(1, "Buy milk", "todo", Some("2%"))),
        Err(ParseStatusError { text: "todo".to_string() })
    );
    assert_eq!(
        Task::from_row(&row(1, "Buy milk", "", None)),
        Err(ParseStatusError { text: "".to_string() })
    );
}

#[test]
fn rows_become_tasks_in_their_order() {
    assert_eq!(tasks_from_rows(&vec![]), Ok(vec![]));
    assert_eq!(
        tasks_from_rows(&vec![
            row(3, "c", "DONE", None),
            row(1, "a", "TODO", Some("x")),
            row(2, "b", "DOING", Some("y")),
        ]),
        Ok(vec![
            task(3, "c", Status::DONE, None),
            task(1, "a", Status::TODO, Some("x")),
            task(2, "b", Status::DOING, Some("y")),
        ])
    );
}

#[test]
fn the_first_unreadable_row_ends_the_listing() {
    assert_eq!(
        tasks_from_rows(&vec![
            row(1, "a", "TODO", None),
            row(2, "b", "LATER", None),
            row(3, "c", "NEVER", None),
            row(4, "d", "DONE", None),
        ]),
        Err(ParseStatusError { text: "LATER".to_string() })
    );
    assert_eq!(
        tasks_from_rows(&vec![row(1, "a", "NEVER", None), row(2, "b", "LATER", None)]),
        Err(ParseStatusError { text: "NEVER".to_string() })
    );
    assert_eq!(
        tasks_from_rows(&vec![row(1, "a", "DONE", None), row(2, "b", "done", None)]),
        Err(ParseStatusError { text: "done".to_string() })
    );
}
