use crate::clock::{parsed_moment, Moment, Timestamp};
use crate::error::Error;
use crate::json::{field_of, find_field, Field, FieldView, Record, RecordView};
use crate::state::TaskState;
use crate::task::{Task, TaskView};
use vstd::prelude::*;

verus! {

/// The number of a task, as its record gives it: a whole number that the
/// machine can hold.
pub open spec fn decode_id(field: Option<FieldView>) -> Result<int, Error> {
    match field {
        Some(FieldView::Number(Some(id))) => if id <= usize::MAX {
            Ok(id as int)
        } else {
            Err(Error::StoreRead)
        },
        _ => Err(Error::StoreRead),
    }
}

/// The name of a task, as its record gives it.
pub open spec fn decode_name(field: Option<FieldView>) -> Result<Seq<char>, Error> {
    match field {
        Some(FieldView::Text(name)) => Ok(name),
        _ => Err(Error::StoreRead),
    }
}

/// The state of a task, as its record gives it. A text that is none of the
/// four tokens is an invalid state, not a pending task.
pub open spec fn decode_state(field: Option<FieldView>) -> Result<TaskState, Error> {
    match field {
        Some(FieldView::Text(token)) => match TaskState::from_token(token) {
            Some(state) => Ok(state),
            None => Err(Error::InvalidState),
        },
        _ => Err(Error::StoreRead),
    }
}

/// A time that a record must give.
pub open spec fn decode_stamp(field: Option<FieldView>) -> Result<Moment, Error> {
    match field {
        Some(FieldView::Text(text)) => match parsed_moment(text) {
            Some(at) => Ok(at),
            None => Err(Error::StoreRead),
        },
        _ => Err(Error::StoreRead),
    }
}

/// A time that a record may give: a field that is missing or null gives none.
pub open spec fn decode_optional_stamp(field: Option<FieldView>) -> Result<
    Option<Moment>,
    Error,
> {
    match field {
        None => Ok(None),
        Some(FieldView::Null) => Ok(None),
        Some(FieldView::Text(text)) => match parsed_moment(text) {
            Some(at) => Ok(Some(at)),
            None => Err(Error::StoreRead),
        },
        Some(_) => Err(Error::StoreRead),
    }
}

/// The task that a record stands for. The fields are read in the order `id`,
/// `name`, `state`, `created_at`, `started_at`, `finished_at`, and the first
/// that cannot be read decides the error. Other fields are passed over.
pub open spec fn decode_record(record: RecordView) -> Result<TaskView, Error> {
    let id = decode_id(field_of(record, "id"@));
    let name = decode_name(field_of(record, "name"@));
    let state = decode_state(field_of(record, "state"@));
    let created_at = decode_stamp(field_of(record, "created_at"@));
    let started_at = decode_optional_stamp(field_of(record, "started_at"@));
    let finished_at = decode_optional_stamp(field_of(record, "finished_at"@));
    if id is Err {
        Err(id->Err_0)
    } else if name is Err {
        Err(name->Err_0)
    } else if state is Err {
        Err(state->Err_0)
    } else if created_at is Err {
        Err(created_at->Err_0)
    } else if started_at is Err {
        Err(started_at->Err_0)
    } else if finished_at is Err {
        Err(finished_at->Err_0)
    } else {
        Ok(
            TaskView {
                id: id->Ok_0,
                name: name->Ok_0,
                state: state->Ok_0,
                created_at: created_at->Ok_0,
                started_at: started_at->Ok_0,
                finished_at: finished_at->Ok_0,
            },
        )
    }
}

/// The tasks that a list of records stands for, in the order of the records;
/// the first record that cannot be read decides the error.
pub open spec fn decode_records(records: Seq<RecordView>) -> Result<Seq<TaskView>, Error>
    decreases records.len(),
{
    if records.len() == 0 {
        Ok(Seq::empty())
    } else {
        match decode_records(records.drop_last()) {
            Err(error) => Err(error),
            Ok(tasks) => match decode_record(records.last()) {
                Err(error) => Err(error),
                Ok(task) => Ok(tasks.push(task)),
            },
        }
    }
}

fn read_id(field: Option<&Field>) -> (read: Result<usize, Error>)
    ensures
        match read {
            Ok(id) => decode_id(field.deep_view()) == Ok::<int, Error>(id as int),
            Err(error) => decode_id(field.deep_view()) == Err::<int, Error>(error),
        },
{
    match field {
        Some(Field::Number(Some(id))) => {
            if *id <= usize::MAX as u64 {
                Ok(*id as usize)
            } else {
                Err(Error::StoreRead)
            }
        },
        _ => Err(Error::StoreRead),
    }
}

fn read_name(field: Option<&Field>) -> (read: Result<String, Error>)
    ensures
        match read {
            Ok(name) => decode_name(field.deep_view()) == Ok::<Seq<char>, Error>(name@),
            Err(error) => decode_name(field.deep_view()) == Err::<Seq<char>, Error>(error),
        },
{
    match field {
        Some(Field::Text(name)) => Ok(name.clone()),
        _ => Err(Error::StoreRead),
    }
}

fn read_state(field: Option<&Field>) -> (read: Result<TaskState, Error>)
    ensures
        read == decode_state(field.deep_view()),
{
    match field {
        Some(Field::Text(token)) => TaskState::try_from(token.as_str()),
        _ => Err(Error::StoreRead),
    }
}

fn read_stamp(field: Option<&Field>) -> (read: Result<Timestamp, Error>)
    ensures
        match read {
            Ok(at) => decode_stamp(field.deep_view()) == Ok::<Moment, Error>(at@),
            Err(error) => decode_stamp(field.deep_view()) == Err::<Moment, Error>(error),
        },
{
    match field {
        Some(Field::Text(text)) => match Timestamp::parse(text.as_str()) {
            Some(at) => Ok(at),
            None => Err(Error::StoreRead),
        },
        _ => Err(Error::StoreRead),
    }
}

fn read_optional_stamp(field: Option<&Field>) -> (read: Result<Option<Timestamp>, Error>)
    ensures
        match read {
            Ok(at) => decode_optional_stamp(field.deep_view()) == Ok::<Option<Moment>, Error>(
                at.deep_view(),
            ),
            Err(error) => decode_optional_stamp(field.deep_view()) == Err::<
                Option<Moment>,
                Error,
            >(error),
        },
{
    match field {
        None => Ok(None),
        Some(Field::Null) => Ok(None),
        Some(Field::Text(text)) => match Timestamp::parse(text.as_str()) {
            Some(at) => Ok(Some(at)),
            None => Err(Error::StoreRead),
        },
        Some(_) => Err(Error::StoreRead),
    }
}

/// Reads one task from its record.
pub fn task_from_record(record: &Record) -> (read: Result<Task, Error>)
    ensures
        match read {
            Ok(task) => decode_record(record.deep_view()) == Ok::<TaskView, Error>(task@),
            Err(error) => decode_record(record.deep_view()) == Err::<TaskView, Error>(error),
        },
{
    let id = match read_id(find_field(record, "id")) {
        Ok(id) => id,
        Err(error) => {
            return Err(error);
        },
    };
    let name = match read_name(find_field(record, "name")) {
        Ok(name) => name,
        Err(error) => {
            return Err(error);
        },
    };
    let state = match read_state(find_field(record, "state")) {
        Ok(state) => state,
        Err(error) => {
            return Err(error);
        },
    };
    let created_at = match read_stamp(find_field(record, "created_at")) {
        Ok(at) => at,
        Err(error) => {
            return Err(error);
        },
    };
    let started_at = match read_optional_stamp(find_field(record, "started_at")) {
        Ok(at) => at,
        Err(error) => {
            return Err(error);
        },
    };
    let finished_at = match read_optional_stamp(find_field(record, "finished_at")) {
        Ok(at) => at,
        Err(error) => {
            return Err(error);
        },
    };
    Ok(Task { id, name, state, created_at, started_at, finished_at })
}

/// Reads the tasks of a store from its records.
pub fn tasks_from_records(records: &Vec<Record>) -> (read: Result<Vec<Task>, Error>)
    ensures
        match read {
            Ok(tasks) => decode_records(records.deep_view()) == Ok::<Seq<TaskView>, Error>(
                tasks.deep_view(),
            ),
            Err(error) => decode_records(records.deep_view()) == Err::<Seq<TaskView>, Error>(
                error,
            ),
        },
{
    let mut tasks: Vec<Task> = Vec::new();
    let mut at: usize = 0;
    assert(tasks.deep_view() =~= Seq::<TaskView>::empty());
    while at < records.len()
        invariant
            at <= records.len(),
            decode_records(records.deep_view().take(at as int)) == Ok::<Seq<TaskView>, Error>(
                tasks.deep_view(),
            ),
        decreases records.len() - at,
    {
        let ghost all = records.deep_view();
        proof {
            assert(all.take(at + 1).drop_last() =~= all.take(at as int));
        }
        match task_from_record(&records[at]) {
            Ok(task) => {
                let ghost before = tasks.deep_view();
                tasks.push(task);
                assert(tasks.deep_view() =~= before.push(task@));
            },
            Err(error) => {
                proof {
                    lemma_decode_records_fails_at(all, at as int, error);
                }
                return Err(error);
            },
        }
        at += 1;
    }
    assert(records.deep_view().take(at as int) =~= records.deep_view());
    Ok(tasks)
}

/// A list of records can be read exactly if each of them can, and then each
/// task is the one that its record stands for.
pub proof fn lemma_decode_records_one_by_one(records: Seq<RecordView>)
    ensures
        decode_records(records) is Ok <==> forall|i: int|
            0 <= i < records.len() ==> (#[trigger] decode_record(records[i])) is Ok,
        decode_records(records) matches Ok(tasks) ==> tasks.len() == records.len() && forall|
            i: int,
        |
            0 <= i < records.len() ==> decode_record(records[i]) == Ok::<TaskView, Error>(
                #[trigger] tasks[i],
            ),
    decreases records.len(),
{
    if records.len() > 0 {
        let before = records.drop_last();
        lemma_decode_records_one_by_one(before);
        if decode_records(records) is Ok {
            assert forall|i: int| 0 <= i < records.len() implies (#[trigger] decode_record(
                records[i],
            )) is Ok by {
                if i < before.len() {
                    assert(records[i] == before[i]);
                }
            }
        }
    }
}

/// Where all records before a place can be read and the one at that place
/// cannot, the error of the whole list is the error of that record.
pub proof fn lemma_decode_records_fails_at(records: Seq<RecordView>, at: int, error: Error)
    requires
        0 <= at < records.len(),
        decode_records(records.take(at)) is Ok,
        decode_record(records[at]) == Err::<TaskView, Error>(error),
    ensures
        decode_records(records) == Err::<Seq<TaskView>, Error>(error),
    decreases records.len(),
{
    if at < records.len() - 1 {
        assert(records.drop_last().take(at) =~= records.take(at));
        lemma_decode_records_fails_at(records.drop_last(), at, error);
    }
}

} // verus!
