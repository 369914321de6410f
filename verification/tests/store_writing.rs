use task_tui::clock::Timestamp;
use task_tui::Error;
use task_tui::order::{greatest_id, sort_tasks};
use task_tui::selection::Selection;
use task_tui::state::TaskState;
use task_tui::store::{
    add_task_to_db, add_task_to_db_at, collect_tasks, progress_task_at_index,
    progress_task_at_index_at, remove_task_at_index, write_db,
};
use task_tui::task::Task;
use task_tui::writing::{frame_document, frame_record, record_to_text, tasks_to_text};

fn at(secs: i64) -> Timestamp {
    Timestamp::new(secs, 0).unwrap()
}

fn task(id: usize, name: &str) -> Task {
    Task::create_task_at(id, String::from(name), at(1_609_459_200))
}

fn ids(tasks: &[Task]) -> Vec<usize> {
    tasks.iter().map(|task| task.id).collect()
}

fn names(tasks: &[Task]) -> Vec<String> {
    tasks.iter().map(|task| task.name.clone()).collect()
}

#[test]
fn the_record_of_a_pending_task() {
    assert_eq!(
        record_to_text(&task(1, "wash dishes")).unwrap(),
        r#"{"id":1,"name":"wash dishes","state":"pending","created_at":"2021-01-01T00:00:00Z"}"#
    );
}

#[test]
fn the_record_of_a_finished_task() {
    let mut done = task(20, "b");
    done.progress_at(at(1_609_459_260));
    done.progress_at(at(1_609_459_270));
    done.progress_at(Timestamp::new(1_609_459_320, 250_000_000).unwrap());
    assert_eq!(
        record_to_text(&done).unwrap(),
        r#"{"id":20,"name":"b","state":"done","created_at":"2021-01-01T00:00:00Z","started_at":"2021-01-01T00:01:00Z","finished_at":"2021-01-01T00:02:00.250Z"}"#
    );
}

#[test]
fn the_record_of_a_task_in_progress() {
    let mut begun = task(3, "c");
    begun.progress_at(at(1_609_459_260));
    begun.progress_at(at(1_609_459_270));
    assert_eq!(
        record_to_text(&begun).unwrap(),
        r#"{"id":3,"name":"c","state":"in progress","created_at":"2021-01-01T00:00:00Z","started_at":"2021-01-01T00:01:00Z"}"#
    );
}

#[test]
fn a_name_is_written_as_a_json_string() {
    assert_eq!(
        record_to_text(&task(1, "say \"hi\"\\\n\tnow \u{1}")).unwrap(),
        r#"{"id":1,"name":"say \"hi\"\\\n\tnow \u0001","state":"pending","created_at":"2021-01-01T00:00:00Z"}"#
    );
    assert_eq!(
        record_to_text(&task(1, "")).unwrap(),
        r#"{"id":1,"name":"","state":"pending","created_at":"2021-01-01T00:00:00Z"}"#
    );
    assert_eq!(
        record_to_text(&task(1, "caf\u{e9} \u{65e5}\u{672c}")).unwrap(),
        "{\"id\":1,\"name\":\"caf\u{e9} \u{65e5}\u{672c}\",\"state\":\"pending\",\"created_at\":\"2021-01-01T00:00:00Z\"}"
    );
}

#[test]
fn a_record_is_framed_from_the_texts_of_its_values() {
    assert_eq!(
        frame_record(1, "\"a\"", "\"pending\"", "\"then\"", None, None),
        r#"{"id":1,"name":"a","state":"pending","created_at":"then"}"#
    );
    assert_eq!(
        frame_record(10, "n", "s", "c", Some("b"), None),
        r#"{"id":10,"name":n,"state":s,"created_at":c,"started_at":b}"#
    );
    assert_eq!(
        frame_record(0, "", "", "", None, Some("e")),
        r#"{"id":0,"name":,"state":,"created_at":,"finished_at":e}"#
    );
    assert_eq!(
        frame_record(usize::MAX, "n", "s", "c", Some("b"), Some("e")),
        format!(
            r#"{{"id":{},"name":n,"state":s,"created_at":c,"started_at":b,"finished_at":e}}"#,
            usize::MAX
        )
    );
}

#[test]
fn a_document_is_framed_from_the_texts_of_its_records() {
    assert_eq!(frame_document(&vec![]), "[]");
    assert_eq!(frame_document(&vec![String::from("{}")]), "[{}]");
    assert_eq!(
        frame_document(&vec![String::from("a"), String::from("b"), String::from("c")]),
        "[a,b,c]"
    );
    assert_eq!(frame_document(&vec![String::new(), String::new()]), "[,]");
}

#[test]
fn the_text_of_no_tasks() {
    assert_eq!(tasks_to_text(&vec![]).unwrap(), "[]");
}

#[test]
fn the_text_of_one_task() {
    assert_eq!(
        tasks_to_text(&vec![task(1, "a")]).unwrap(),
        r#"[{"id":1,"name":"a","state":"pending","created_at":"2021-01-01T00:00:00Z"}]"#
    );
}

#[test]
fn the_text_of_tasks_keeps_their_order() {
    assert_eq!(
        tasks_to_text(&vec![task(2, "b"), task(1, "a"), task(3, "c")]).unwrap(),
        concat_three(
            r#"{"id":2,"name":"b","state":"pending","created_at":"2021-01-01T00:00:00Z"}"#,
            r#"{"id":1,"name":"a","state":"pending","created_at":"2021-01-01T00:00:00Z"}"#,
            r#"{"id":3,"name":"c","state":"pending","created_at":"2021-01-01T00:00:00Z"}"#,
        )
    );
}

fn concat_three(first: &str, second: &str, third: &str) -> String {
    format!("[{},{},{}]", first, second, third)
}

#[test]
fn sorting_puts_numbers_in_ascending_order() {
    let sorted = sort_tasks(vec![task(5, "e"), task(2, "b"), task(9, "i"), task(1, "a")]);
    assert_eq!(ids(&sorted), vec![1, 2, 5, 9]);
    assert_eq!(names(&sorted), vec!["a", "b", "e", "i"]);
}

#[test]
fn sorting_keeps_the_order_of_equal_numbers() {
    let sorted = sort_tasks(vec![
        task(2, "first two"),
        task(1, "first one"),
        task(2, "second two"),
        task(1, "second one"),
        task(2, "third two"),
    ]);
    assert_eq!(ids(&sorted), vec![1, 1, 2, 2, 2]);
    assert_eq!(
        names(&sorted),
        vec!["first one", "second one", "first two", "second two", "third two"]
    );
}

#[test]
fn sorting_leaves_sorted_tasks_alone() {
    let tasks = vec![task(1, "a"), task(2, "b"), task(3, "c")];
    assert_eq!(sort_tasks(tasks.clone()), tasks);
    assert_eq!(sort_tasks(vec![]), vec![]);
    assert_eq!(sort_tasks(vec![task(4, "d")]), vec![task(4, "d")]);
}

#[test]
fn sorting_turns_a_descending_list_round() {
    let sorted = sort_tasks((1..=20).rev().map(|id| task(id, "t")).collect());
    assert_eq!(ids(&sorted), (1..=20).collect::<Vec<_>>());
}

#[test]
fn the_greatest_number() {
    assert_eq!(greatest_id(&vec![]), 0);
    assert_eq!(greatest_id(&vec![task(4, "d")]), 4);
    assert_eq!(greatest_id(&vec![task(4, "d"), task(9, "i"), task(2, "b")]), 9);
    assert_eq!(greatest_id(&vec![task(0, "z")]), 0);
    assert_eq!(greatest_id(&vec![task(usize::MAX, "m"), task(1, "a")]), usize::MAX);
}

#[test]
fn saving_sorts_and_writes_what_it_hands_back() {
    let (saved, text) = write_db(vec![task(2, "b"), task(1, "a")]).unwrap();
    assert_eq!(saved, vec![task(1, "a"), task(2, "b")]);
    assert_eq!(
        text,
        r#"[{"id":1,"name":"a","state":"pending","created_at":"2021-01-01T00:00:00Z"},{"id":2,"name":"b","state":"pending","created_at":"2021-01-01T00:00:00Z"}]"#
    );
}

#[test]
fn saving_no_tasks_writes_an_empty_list() {
    assert_eq!(write_db(vec![]), Ok((vec![], String::from("[]"))));
}

#[test]
fn what_was_saved_loads_as_it_was() {
    let mut begun = task(7, "begun \"twice\"");
    begun.progress_at(Timestamp::new(1_609_459_260, 1).unwrap());
    let mut done = task(3, "done");
    done.progress_at(at(1_609_459_260));
    done.progress_at(at(1_609_459_270));
    done.progress_at(Timestamp::new(1_609_459_280, 999_999_999).unwrap());
    let (saved, text) = write_db(vec![begun, task(5, ""), done]).unwrap();
    assert_eq!(ids(&saved), vec![3, 5, 7]);
    assert_eq!(collect_tasks(&text), Ok(saved));
}

#[test]
fn saving_what_was_loaded_writes_the_same_text() {
    let mut begun = task(2, "b");
    begun.progress_at(at(1_609_459_260));
    let (saved, text) = write_db(vec![task(3, "c"), begun, task(1, "a")]).unwrap();
    let loaded = collect_tasks(&text).unwrap();
    let (saved_again, text_again) = write_db(loaded).unwrap();
    assert_eq!(saved_again, saved);
    assert_eq!(text_again, text);
    let loaded_again = collect_tasks(&text_again).unwrap();
    assert_eq!(write_db(loaded_again), Ok((saved, text)));
}

#[test]
fn adding_to_an_empty_store_gives_task_one() {
    let (saved, text) =
        add_task_to_db_at(vec![], String::from("wash dishes"), at(1_609_459_200)).unwrap();
    assert_eq!(
        saved,
        vec![Task {
            id: 1,
            name: String::from("wash dishes"),
            state: TaskState::Pending,
            created_at: at(1_609_459_200),
            started_at: None,
            finished_at: None,
        }]
    );
    assert_eq!(
        text,
        r#"[{"id":1,"name":"wash dishes","state":"pending","created_at":"2021-01-01T00:00:00Z"}]"#
    );
}

#[test]
fn adding_now_gives_a_pending_task() {
    let (saved, text) = add_task_to_db(vec![], String::from("wash dishes")).unwrap();
    assert_eq!(saved.len(), 1);
    assert_eq!(saved[0].id, 1);
    assert_eq!(saved[0].name, "wash dishes");
    assert_eq!(saved[0].state, TaskState::Pending);
    assert_eq!(saved[0].started_at, None);
    assert_eq!(saved[0].finished_at, None);
    assert_eq!(collect_tasks(&text), Ok(saved));
}

#[test]
fn additions_count_up_from_the_greatest_number() {
    let mut tasks = vec![task(4, "d"), task(2, "b")];
    for (round, name) in ["e", "f", "g"].into_iter().enumerate() {
        let before = greatest_id(&tasks);
        tasks = add_task_to_db_at(tasks, String::from(name), at(round as i64)).unwrap().0;
        assert_eq!(greatest_id(&tasks), before + 1);
    }
    assert_eq!(ids(&tasks), vec![2, 4, 5, 6, 7]);
    assert_eq!(names(&tasks), vec!["b", "d", "e", "f", "g"]);
}

#[test]
fn additions_go_by_the_greatest_number_not_the_last() {
    let tasks = vec![task(9, "i"), task(3, "c")];
    let (saved, _) = add_task_to_db_at(tasks, String::from("j"), at(0)).unwrap();
    assert_eq!(ids(&saved), vec![3, 9, 10]);
    assert_eq!(saved[2].name, "j");
}

#[test]
fn additions_keep_numbers_apart() {
    let mut tasks = vec![];
    for round in 0..10 {
        tasks = add_task_to_db_at(tasks, format!("task {}", round), at(round)).unwrap().0;
    }
    assert_eq!(ids(&tasks), (1..=10).collect::<Vec<_>>());
}

#[test]
fn the_selected_pending_task_starts() {
    let selection = Selection { index: Some(0) };
    let (saved, text) =
        progress_task_at_index_at(&selection, vec![task(1, "a")], at(1_609_459_260))
            .unwrap()
            .unwrap();
    assert_eq!(saved.len(), 1);
    assert_eq!(saved[0].state, TaskState::Started);
    assert_eq!(saved[0].started_at, Some(at(1_609_459_260)));
    assert_eq!(saved[0].finished_at, None);
    assert_eq!(
        text,
        r#"[{"id":1,"name":"a","state":"started","created_at":"2021-01-01T00:00:00Z","started_at":"2021-01-01T00:01:00Z"}]"#
    );
}

#[test]
fn the_selected_task_starts_now() {
    let selection = Selection { index: Some(0) };
    let (saved, _) = progress_task_at_index(&selection, vec![task(1, "a")]).unwrap().unwrap();
    assert_eq!(saved[0].state, TaskState::Started);
    assert!(saved[0].started_at.is_some());
    assert_eq!(saved[0].finished_at, None);
}

#[test]
fn only_the_selected_task_moves() {
    let selection = Selection { index: Some(1) };
    let tasks = vec![task(1, "a"), task(2, "b"), task(3, "c")];
    let (saved, _) = progress_task_at_index_at(&selection, tasks, at(5)).unwrap().unwrap();
    assert_eq!(saved[0], task(1, "a"));
    assert_eq!(saved[1].state, TaskState::Started);
    assert_eq!(saved[1].id, 2);
    assert_eq!(saved[2], task(3, "c"));
}

#[test]
fn progress_goes_by_the_place_as_read_and_saves_sorted() {
    let selection = Selection { index: Some(0) };
    let tasks = vec![task(3, "c"), task(1, "a")];
    let (saved, _) = progress_task_at_index_at(&selection, tasks, at(5)).unwrap().unwrap();
    assert_eq!(ids(&saved), vec![1, 3]);
    assert_eq!(saved[0].state, TaskState::Pending);
    assert_eq!(saved[1].state, TaskState::Started);
}

#[test]
fn progress_without_a_selected_task_does_nothing() {
    let none = Selection { index: None };
    assert_eq!(progress_task_at_index_at(&none, vec![task(1, "a")], at(5)), Ok(None));
    assert_eq!(progress_task_at_index_at(&none, vec![], at(5)), Ok(None));
    let first = Selection { index: Some(0) };
    assert_eq!(progress_task_at_index_at(&first, vec![], at(5)), Ok(None));
    assert_eq!(progress_task_at_index(&first, vec![]), Ok(None));
    let beyond = Selection { index: Some(1) };
    assert_eq!(progress_task_at_index_at(&beyond, vec![task(1, "a")], at(5)), Ok(None));
}

#[test]
fn removing_the_first_of_two_keeps_the_selection_on_the_first() {
    let mut selection = Selection { index: Some(0) };
    let (saved, text) =
        remove_task_at_index(&mut selection, vec![task(1, "a"), task(2, "b")]).unwrap().unwrap();
    assert_eq!(saved, vec![task(2, "b")]);
    assert_eq!(selection, Selection { index: Some(0) });
    assert_eq!(
        text,
        r#"[{"id":2,"name":"b","state":"pending","created_at":"2021-01-01T00:00:00Z"}]"#
    );
}

#[test]
fn removing_a_later_task_moves_the_selection_up() {
    let mut selection = Selection { index: Some(2) };
    let tasks = vec![task(1, "a"), task(2, "b"), task(3, "c")];
    let (saved, _) = remove_task_at_index(&mut selection, tasks).unwrap().unwrap();
    assert_eq!(ids(&saved), vec![1, 2]);
    assert_eq!(selection, Selection { index: Some(1) });

    let mut selection = Selection { index: Some(1) };
    let tasks = vec![task(1, "a"), task(2, "b"), task(3, "c")];
    let (saved, _) = remove_task_at_index(&mut selection, tasks).unwrap().unwrap();
    assert_eq!(ids(&saved), vec![1, 3]);
    assert_eq!(selection, Selection { index: Some(0) });
}

#[test]
fn removing_the_only_task_leaves_nothing_selected() {
    let mut selection = Selection { index: Some(0) };
    let (saved, text) = remove_task_at_index(&mut selection, vec![task(1, "a")]).unwrap().unwrap();
    assert_eq!(saved, vec![]);
    assert_eq!(text, "[]");
    assert_eq!(selection, Selection { index: None });
}

#[test]
fn removal_without_a_selected_task_does_nothing() {
    let mut selection = Selection { index: None };
    assert_eq!(remove_task_at_index(&mut selection, vec![task(1, "a")]), Ok(None));
    assert_eq!(selection, Selection { index: None });

    let mut selection = Selection { index: Some(0) };
    assert_eq!(remove_task_at_index(&mut selection, vec![]), Ok(None));
    assert_eq!(selection, Selection { index: Some(0) });

    let mut selection = Selection { index: Some(3) };
    assert_eq!(
        remove_task_at_index(&mut selection, vec![task(1, "a"), task(2, "b"), task(3, "c")]),
        Ok(None)
    );
    assert_eq!(selection, Selection { index: Some(3) });
}

#[test]
fn store_errors_have_their_own_messages() {
    assert_eq!(Error::StoreRead.to_string(), "error reading the task store");
    assert_eq!(Error::StoreWrite.to_string(), "error writing the task store");
    assert_eq!(Error::InvalidState.to_string(), "input was not a valid TaskState");
    assert_eq!(Error::EventSource.to_string(), "the event source failed");
    assert_eq!(Error::TerminalSession.to_string(), "the terminal session failed");
}
