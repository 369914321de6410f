use crate::clock::{rfc3339_text, Moment, Timestamp};
use crate::json::{json_quoted, quote};
use crate::task::{Task, TaskView};
use crate::text::{decimal, decimal_text};
use vstd::prelude::*;

verus! {

/// A member of a record that may be missing: the key with the value behind
/// it, or nothing at all.
pub open spec fn optional_member(key: Seq<char>, value: Option<Seq<char>>) -> Seq<char> {
    match value {
        Some(value) => key + value,
        None => Seq::empty(),
    }
}

/// A record put together from the texts of its values: a JSON object
/// without spaces that holds `id`, `name`, `state` and `created_at`, then
/// `started_at` and `finished_at` as far as there are values for them.
pub open spec fn framed_record(
    id: nat,
    name: Seq<char>,
    state: Seq<char>,
    created_at: Seq<char>,
    started_at: Option<Seq<char>>,
    finished_at: Option<Seq<char>>,
) -> Seq<char> {
    "{\"id\":"@ + decimal(id) + ",\"name\":"@ + name + ",\"state\":"@ + state
        + ",\"created_at\":"@ + created_at + optional_member(",\"started_at\":"@, started_at)
        + optional_member(",\"finished_at\":"@, finished_at) + "}"@
}

/// Texts in a row, with a comma between each two.
pub open spec fn joined(texts: Seq<Seq<char>>) -> Seq<char>
    decreases texts.len(),
{
    if texts.len() == 0 {
        Seq::empty()
    } else if texts.len() == 1 {
        texts.last()
    } else {
        joined(texts.drop_last()) + ","@ + texts.last()
    }
}

/// A document put together from the texts of its records: a JSON list
/// without spaces.
pub open spec fn framed_document(records: Seq<Seq<char>>) -> Seq<char> {
    "["@ + joined(records) + "]"@
}

/// A time as a record holds it: chrono's text of the time, as the JSON string
/// that serde_json makes of it.
pub open spec fn stamp_literal(at: Moment) -> Option<Seq<char>> {
    json_quoted(rfc3339_text(at.secs, at.nanos))
}

/// A time that may be missing as a record holds it; `None` where there is a
/// time and serde_json fails on its text.
pub open spec fn optional_stamp_literal(at: Option<Moment>) -> Option<Option<Seq<char>>> {
    match at {
        None => Some(None),
        Some(at) => match stamp_literal(at) {
            Some(literal) => Some(Some(literal)),
            None => None,
        },
    }
}

/// The record of a task: its number in base ten, its name, the token of its
/// state and its times as JSON strings, put together by `framed_record`.
/// `None` where serde_json fails on one of the texts.
pub open spec fn record_text(task: TaskView) -> Option<Seq<char>> {
    let name = json_quoted(task.name);
    let state = json_quoted(task.state.token());
    let created_at = stamp_literal(task.created_at);
    let started_at = optional_stamp_literal(task.started_at);
    let finished_at = optional_stamp_literal(task.finished_at);
    if name is Some && state is Some && created_at is Some && started_at is Some
        && finished_at is Some {
        Some(
            framed_record(
                task.id as nat,
                name->Some_0,
                state->Some_0,
                created_at->Some_0,
                started_at->Some_0,
                finished_at->Some_0,
            ),
        )
    } else {
        None
    }
}

/// The text of a store file that holds the tasks: the records of the tasks,
/// in their order, put together by `framed_document`. `None` where one of
/// the records cannot be written.
pub open spec fn document_text(tasks: Seq<TaskView>) -> Option<Seq<char>> {
    if forall|i: int| 0 <= i < tasks.len() ==> (#[trigger] record_text(tasks[i])) is Some {
        Some(framed_document(Seq::new(tasks.len(), |i: int| record_text(tasks[i])->Some_0)))
    } else {
        None
    }
}

/// Puts a record together from the texts of its values.
pub fn frame_record(
    id: usize,
    name: &str,
    state: &str,
    created_at: &str,
    started_at: Option<&str>,
    finished_at: Option<&str>,
) -> (text: String)
    ensures
        text@ == framed_record(
            id as nat,
            name@,
            state@,
            created_at@,
            started_at.deep_view(),
            finished_at.deep_view(),
        ),
{
    let mut text = "{\"id\":".to_owned();
    let number = decimal_text(id as u64);
    text.append(number.as_str());
    text.append(",\"name\":");
    text.append(name);
    text.append(",\"state\":");
    text.append(state);
    text.append(",\"created_at\":");
    text.append(created_at);
    if let Some(started_at) = started_at {
        text.append(",\"started_at\":");
        text.append(started_at);
    }
    if let Some(finished_at) = finished_at {
        text.append(",\"finished_at\":");
        text.append(finished_at);
    }
    text.append("}");
    text
}

/// Puts a document together from the texts of its records.
pub fn frame_document(records: &Vec<String>) -> (text: String)
    ensures
        text@ == framed_document(records.deep_view()),
{
    let mut text = "[".to_owned();
    let mut at: usize = 0;
    let ghost all = records.deep_view();
    while at < records.len()
        invariant
            at <= records.len(),
            all == records.deep_view(),
            text@ == "["@ + joined(all.take(at as int)),
        decreases records.len() - at,
    {
        proof {
            assert(all.take(at + 1).drop_last() =~= all.take(at as int));
        }
        if at > 0 {
            text.append(",");
        }
        text.append(records[at].as_str());
        at += 1;
    }
    assert(all.take(at as int) =~= all);
    text.append("]");
    text
}

fn stamp_to_text(at: &Timestamp) -> (literal: Option<String>)
    ensures
        literal.deep_view() == stamp_literal(at@),
{
    let plain = at.to_rfc3339();
    quote(plain.as_str())
}

fn optional_stamp_to_text(at: &Option<Timestamp>) -> (literal: Option<Option<String>>)
    ensures
        literal.deep_view() == optional_stamp_literal(at.deep_view()),
{
    match at {
        None => Some(None),
        Some(at) => match stamp_to_text(at) {
            Some(literal) => Some(Some(literal)),
            None => None,
        },
    }
}

fn borrowed(text: &Option<String>) -> (slice: Option<&str>)
    ensures
        slice.deep_view() == text.deep_view(),
{
    match text {
        Some(text) => Some(text.as_str()),
        None => None,
    }
}

/// Writes the record of one task.
pub fn record_to_text(task: &Task) -> (text: Option<String>)
    ensures
        text.deep_view() == record_text(task@),
{
    let name = match quote(task.name.as_str()) {
        Some(name) => name,
        None => {
            return None;
        },
    };
    let token = task.state.to_string();
    let state = match quote(token.as_str()) {
        Some(state) => state,
        None => {
            return None;
        },
    };
    let created_at = match stamp_to_text(&task.created_at) {
        Some(created_at) => created_at,
        None => {
            return None;
        },
    };
    let started_at = match optional_stamp_to_text(&task.started_at) {
        Some(started_at) => started_at,
        None => {
            return None;
        },
    };
    let finished_at = match optional_stamp_to_text(&task.finished_at) {
        Some(finished_at) => finished_at,
        None => {
            return None;
        },
    };
    Some(
        frame_record(
            task.id,
            name.as_str(),
            state.as_str(),
            created_at.as_str(),
            borrowed(&started_at),
            borrowed(&finished_at),
        ),
    )
}

/// Writes the text of a store file that holds the tasks, in their order.
pub fn tasks_to_text(tasks: &Vec<Task>) -> (text: Option<String>)
    ensures
        text.deep_view() == document_text(tasks.deep_view()),
{
    let mut records: Vec<String> = Vec::new();
    let mut at: usize = 0;
    let ghost all = tasks.deep_view();
    while at < tasks.len()
        invariant
            at <= tasks.len(),
            all == tasks.deep_view(),
            records.len() == at,
            forall|i: int| 0 <= i < at ==> record_text(all[i]) == Some(#[trigger] records[i]@),
        decreases tasks.len() - at,
    {
        match record_to_text(&tasks[at]) {
            Some(record) => {
                records.push(record);
            },
            None => {
                assert(record_text(all[at as int]) is None);
                return None;
            },
        }
        at += 1;
    }
    proof {
        assert forall|i: int| 0 <= i < all.len() implies (#[trigger] record_text(
            all[i],
        )) is Some by {
            assert(record_text(all[i]) == Some(records[i]@));
        }
        assert(records.deep_view() =~= Seq::new(
            all.len(),
            |i: int| record_text(all[i])->Some_0,
        ));
    }
    Some(frame_document(&records))
}

} // verus!
