use crate::clock::{Moment, Timestamp};
use crate::error::Error;
use crate::json::{json_records, parse_records};
use crate::order::{greatest_id, highest_id, sort_by_id, sort_tasks, sorted_form_of};
use crate::reading::{decode_records, tasks_from_records};
use crate::selection::Selection;
use crate::task::{Task, TaskView};
use crate::text::{blank, is_blank};
use crate::writing::{document_text, tasks_to_text};
use vstd::prelude::*;

verus! {

/// The tasks that the text of a store file stands for. A blank text, as of a
/// file that was just made, and the text `null` stand for no tasks. Every
/// other text is a JSON list of records, or cannot be read.
pub open spec fn decode_document(text: Seq<char>) -> Result<Seq<TaskView>, Error> {
    if blank(text) || text == "null"@ {
        Ok(Seq::empty())
    } else {
        match json_records(text) {
            None => Err(Error::StoreRead),
            Some(records) => decode_records(records),
        }
    }
}

/// Reads the tasks of a store from the text of its file.
pub fn collect_tasks(text: &str) -> (read: Result<Vec<Task>, Error>)
    ensures
        match read {
            Ok(tasks) => decode_document(text@) == Ok::<Seq<TaskView>, Error>(tasks.deep_view()),
            Err(error) => decode_document(text@) == Err::<Seq<TaskView>, Error>(error),
        },
{
    if is_blank(text) || text.to_owned() == "null".to_owned() {
        let tasks: Vec<Task> = Vec::new();
        assert(tasks.deep_view() =~= Seq::<TaskView>::empty());
        return Ok(tasks);
    }
    match parse_records(text) {
        None => Err(Error::StoreRead),
        Some(records) => tasks_from_records(&records),
    }
}

/// Puts the tasks in the order of the store, by ascending number, and writes
/// the text of the store file that holds them. The caller goes on with the
/// sorted tasks, which are what the text holds.
pub fn write_db(tasks: Vec<Task>) -> (written: Result<(Vec<Task>, String), Error>)
    ensures
        match written {
            Ok((saved, text)) => saved.deep_view() == sort_by_id(tasks.deep_view())
                && document_text(saved.deep_view()) == Some(text@),
            Err(error) => error == Error::StoreWrite && document_text(
                sort_by_id(tasks.deep_view()),
            ) is None,
        },
        written matches Ok((saved, _)) ==> sorted_form_of(saved.deep_view(), tasks.deep_view())
            && saved.deep_view().to_multiset() == tasks.deep_view().to_multiset()
            && saved.len() == tasks.len(),
{
    let saved = sort_tasks(tasks);
    match tasks_to_text(&saved) {
        Some(text) => Ok((saved, text)),
        None => Err(Error::StoreWrite),
    }
}

/// The store after a task of this name was added at the time `now`. Its
/// number is one more than the greatest in use, and 1 in an empty store.
pub open spec fn with_added(tasks: Seq<TaskView>, name: Seq<char>, now: Moment) -> Seq<
    TaskView,
> {
    sort_by_id(tasks.push(TaskView::fresh(highest_id(tasks) + 1, name, now)))
}

/// The store after the task at a position took one step forward at the time
/// `now`.
pub open spec fn with_advanced(tasks: Seq<TaskView>, index: int, now: Moment) -> Seq<TaskView> {
    sort_by_id(tasks.update(index, tasks[index].advanced(now)))
}

/// The store after the task at a position was taken out.
pub open spec fn with_removed(tasks: Seq<TaskView>, index: int) -> Seq<TaskView> {
    sort_by_id(tasks.remove(index))
}

/// Adds a task of this name, created at the time `now`, to the tasks that
/// were read from the store, and writes the store anew.
pub fn add_task_to_db_at(tasks: Vec<Task>, name: String, now: Timestamp) -> (written: Result<
    (Vec<Task>, String),
    Error,
>)
    requires
        highest_id(tasks.deep_view()) < usize::MAX,
    ensures
        match written {
            Ok((saved, text)) => saved.deep_view() == with_added(tasks.deep_view(), name@, now@)
                && document_text(saved.deep_view()) == Some(text@),
            Err(error) => error == Error::StoreWrite && document_text(
                with_added(tasks.deep_view(), name@, now@),
            ) is None,
        },
{
    let mut parsed = tasks;
    let ghost before = parsed.deep_view();
    let highest_id = greatest_id(&parsed);
    let new_task = Task::create_task_at(highest_id + 1, name, now);
    parsed.push(new_task);
    assert(parsed.deep_view() =~= before.push(new_task@));
    write_db(parsed)
}

/// Adds a task of this name, created now by the machine's clock, to the
/// tasks that were read from the store, and writes the store anew.
pub fn add_task_to_db(tasks: Vec<Task>, name: String) -> (written: Result<
    (Vec<Task>, String),
    Error,
>)
    requires
        highest_id(tasks.deep_view()) < usize::MAX,
    ensures
        exists|now: Moment|
            match written {
                Ok((saved, text)) => saved.deep_view() == #[trigger] with_added(
                    tasks.deep_view(),
                    name@,
                    now,
                ) && document_text(saved.deep_view()) == Some(text@),
                Err(error) => error == Error::StoreWrite && document_text(
                    with_added(tasks.deep_view(), name@, now),
                ) is None,
            },
{
    add_task_to_db_at(tasks, name, Timestamp::now())
}

/// Moves the selected task one step forward at the time `now` and writes the
/// store anew. Where the selection picks no task of the list there is
/// nothing to do, and nothing to write.
pub fn progress_task_at_index_at(
    task_list_state: &Selection,
    tasks: Vec<Task>,
    now: Timestamp,
) -> (written: Result<Option<(Vec<Task>, String)>, Error>)
    ensures
        match task_list_state.addressed(tasks.len() as nat) {
            None => written matches Ok(None),
            Some(index) => match written {
                Ok(Some((saved, text))) => saved.deep_view() == with_advanced(
                    tasks.deep_view(),
                    index,
                    now@,
                ) && document_text(saved.deep_view()) == Some(text@),
                Ok(None) => false,
                Err(error) => error == Error::StoreWrite && document_text(
                    with_advanced(tasks.deep_view(), index, now@),
                ) is None,
            },
        },
{
    if let Some(selected) = task_list_state.selected() {
        let mut parsed = tasks;
        if selected < parsed.len() {
            let ghost before = parsed.deep_view();
            let ghost held = parsed@;
            let mut element = parsed.remove(selected);
            let ghost short = parsed@;
            element.progress_at(now);
            parsed.insert(selected, element);
            proof {
                held.remove_ensures(selected as int);
                short.insert_ensures(selected as int, element);
                let after = before.update(selected as int, before[selected as int].advanced(now@));
                let got = parsed.deep_view();
                assert(got =~= after);
            }
            return match write_db(parsed) {
                Ok(saved) => Ok(Some(saved)),
                Err(error) => Err(error),
            };
        }
    }
    Ok(None)
}

/// Moves the selected task one step forward, now by the machine's clock, and
/// writes the store anew.
pub fn progress_task_at_index(task_list_state: &Selection, tasks: Vec<Task>) -> (written: Result<
    Option<(Vec<Task>, String)>,
    Error,
>)
    ensures
        match task_list_state.addressed(tasks.len() as nat) {
            None => written matches Ok(None),
            Some(index) => exists|now: Moment|
                match written {
                    Ok(Some((saved, text))) => saved.deep_view() == #[trigger] with_advanced(
                        tasks.deep_view(),
                        index,
                        now,
                    ) && document_text(saved.deep_view()) == Some(text@),
                    Ok(None) => false,
                    Err(error) => error == Error::StoreWrite && document_text(
                        with_advanced(tasks.deep_view(), index, now),
                    ) is None,
                },
        },
{
    progress_task_at_index_at(task_list_state, tasks, Timestamp::now())
}

/// Takes the selected task out, writes the store anew and moves the
/// selection: one task up, or still the first; none where the list is now
/// empty. Where the selection picks no task of the list there is nothing to
/// do, and nothing to write; where the store cannot be written the selection
/// stays.
pub fn remove_task_at_index(task_list_state: &mut Selection, tasks: Vec<Task>) -> (written:
    Result<Option<(Vec<Task>, String)>, Error>)
    ensures
        match old(task_list_state).addressed(tasks.len() as nat) {
            None => written matches Ok(None) && *final(task_list_state) == *old(task_list_state),
            Some(index) => match written {
                Ok(Some((saved, text))) => saved.deep_view() == with_removed(
                    tasks.deep_view(),
                    index,
                ) && document_text(saved.deep_view()) == Some(text@) && *final(task_list_state)
                    == old(task_list_state).after_removal(tasks.len() as nat),
                Ok(None) => false,
                Err(error) => error == Error::StoreWrite && document_text(
                    with_removed(tasks.deep_view(), index),
                ) is None && *final(task_list_state) == *old(task_list_state),
            },
        },
{
    if let Some(selected) = task_list_state.selected() {
        let mut parsed = tasks;
        let len = parsed.len();
        if selected < len {
            let ghost before = parsed.deep_view();
            let ghost held = parsed@;
            parsed.remove(selected);
            proof {
                held.remove_ensures(selected as int);
                before.remove_ensures(selected as int);
                assert(parsed.deep_view() =~= before.remove(selected as int));
            }
            return match write_db(parsed) {
                Ok(saved) => {
                    task_list_state.settle_after_removal(len);
                    Ok(Some(saved))
                },
                Err(error) => Err(error),
            };
        }
    }
    Ok(None)
}

} // verus!
