//! The three stages of a task and their stored text.

use crate::text::str_eq;
use vstd::prelude::*;

verus! {

/// Lifecycle stage of a task. The store holds it as its upper-case name.
#[derive(Clone, Copy, Debug, PartialEq, Eq, Hash, Structural)]
pub enum Status {
    TODO,
    DOING,
    DONE,
}

/// A text that names no status.
#[derive(Clone, Debug, PartialEq, Eq)]
pub struct ParseStatusError {
    /// The text that was rejected.
    pub text: String,
}

impl Status {
    /// The text under which the status is stored and shown.
    pub open spec fn text(self) -> Seq<char> {
        match self {
            Status::TODO => "TODO"@,
            Status::DOING => "DOING"@,
            Status::DONE => "DONE"@,
        }
    }

    /// The status that `s` names, if it names one. The match is exact:
    /// case and surrounding blanks count.
    pub open spec fn parse(s: Seq<char>) -> Option<Status> {
        if s == Status::TODO.text() {
            Some(Status::TODO)
        } else if s == Status::DOING.text() {
            Some(Status::DOING)
        } else if s == Status::DONE.text() {
            Some(Status::DONE)
        } else {
            None
        }
    }

    /// The stored text of the status.
    pub fn as_str(&self) -> (out: &'static str)
        ensures
            out@ == self.text(),
    {
        match self {
            Status::TODO => "TODO",
            Status::DOING => "DOING",
            Status::DONE => "DONE",
        }
    }

    /// The stored text of the status, owned.
    pub fn to_string(&self) -> (out: String)
        ensures
            out@ == self.text(),
    {
        self.as_str().to_owned()
    }

    /// Reads a status from its stored text, and rejects every other text.
    pub fn from_str(s: &str) -> (out: Result<Status, ParseStatusError>)
        ensures
            match Status::parse(s@) {
                Some(status) => out == Ok::<Status, ParseStatusError>(status),
                None => out matches Err(e) && e.text@ == s@,
            },
    {
        if str_eq(s, Status::TODO.as_str()) {
            Ok(Status::TODO)
        } else if str_eq(s, Status::DOING.as_str()) {
            Ok(Status::DOING)
        } else if str_eq(s, Status::DONE.as_str()) {
            Ok(Status::DONE)
        } else {
            Err(ParseStatusError { text: s.to_owned() })
        }
    }
}

/// Reading the stored text of a status gives that status back.
pub proof fn lemma_status_round_trip(status: Status)
    ensures
        Status::parse(status.text()) == Some(status),
{
    reveal_strlit("TODO");
    reveal_strlit("DOING");
    reveal_strlit("DONE");
    assert("TODO"@.len() == 4 && "DOING"@.len() == 5 && "DONE"@.len() == 4);
    assert("TODO"@[0] == 'T' && "DONE"@[0] == 'D');
}

/// A text is read as a status only if it is that status's stored text.
pub proof fn lemma_status_parse_exact(s: Seq<char>)
    ensures
        Status::parse(s) matches Some(status) ==> status.text() == s,
        Status::parse(s) is None <==> s != "TODO"@ && s != "DOING"@ && s != "DONE"@,
{
}

/// Two different statuses have different stored texts.
pub proof fn lemma_status_texts_differ(a: Status, b: Status)
    requires
        a != b,
    ensures
        a.text() != b.text(),
{
    lemma_status_round_trip(a);
    lemma_status_round_trip(b);
}

} // verus!
