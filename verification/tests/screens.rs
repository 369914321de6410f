use task_tui::clock::Timestamp;
use task_tui::screen::{centered_constraints, cursor_after, cursor_position, render_tasks, Rect};
use task_tui::selection::Selection;
use task_tui::task::Task;

fn area(x: u16, y: u16) -> Rect {
    Rect { x, y, width: 60, height: 3 }
}

#[test]
fn the_shares_of_a_centered_part() {
    assert_eq!(centered_constraints(60), (20, 60, 20));
    assert_eq!(centered_constraints(10), (45, 10, 45));
    assert_eq!(centered_constraints(0), (50, 0, 50));
    assert_eq!(centered_constraints(100), (0, 100, 0));
}

#[test]
fn the_sides_of_an_odd_rest_are_rounded_down() {
    assert_eq!(centered_constraints(75), (12, 75, 12));
    assert_eq!(centered_constraints(99), (0, 99, 0));
    assert_eq!(centered_constraints(1), (49, 1, 49));
}

#[test]
fn the_cursor_stands_behind_the_text() {
    assert_eq!(cursor_after(area(10, 5), 0), Some((11, 6)));
    assert_eq!(cursor_after(area(10, 5), 4), Some((15, 6)));
    assert_eq!(cursor_after(area(0, 0), 0), Some((1, 1)));
}

#[test]
fn the_cursor_has_no_cell_past_the_last_column_or_line() {
    assert_eq!(cursor_after(area(0, 0), 65_534), Some((65_535, 1)));
    assert_eq!(cursor_after(area(0, 0), 65_535), None);
    assert_eq!(cursor_after(area(65_534, 0), 0), Some((65_535, 1)));
    assert_eq!(cursor_after(area(65_534, 0), 1), None);
    assert_eq!(cursor_after(area(65_535, 0), 0), None);
    assert_eq!(cursor_after(area(0, 65_534), 0), Some((1, 65_535)));
    assert_eq!(cursor_after(area(0, 65_535), 0), None);
    assert_eq!(cursor_after(area(10, 5), usize::MAX), None);
}

#[test]
fn the_cursor_goes_by_columns_not_by_characters() {
    assert_eq!(cursor_position(area(10, 5), ""), Some((11, 6)));
    assert_eq!(cursor_position(area(10, 5), "wash"), Some((15, 6)));
    // Two wide characters take four columns.
    assert_eq!(cursor_position(area(10, 5), "\u{65e5}\u{672c}"), Some((15, 6)));
    // A combining accent takes none.
    assert_eq!(cursor_position(area(10, 5), "e\u{301}"), Some((12, 6)));
}

fn task(id: usize, name: &str) -> Task {
    Task::create_task_at(id, String::from(name), Timestamp::new(0, 0).unwrap())
}

#[test]
fn the_task_screen_lists_names_and_picks_the_detail() {
    let tasks = vec![task(1, "a"), task(2, "b"), task(3, "c")];
    let names: Vec<String> = vec!["a".into(), "b".into(), "c".into()];
    assert_eq!(render_tasks(&Selection { index: Some(1) }, &tasks), (names.clone(), Some(1)));
    assert_eq!(render_tasks(&Selection { index: None }, &tasks), (names.clone(), Some(0)));
    assert_eq!(render_tasks(&Selection { index: Some(3) }, &tasks), (names, None));
    assert_eq!(render_tasks(&Selection { index: None }, &vec![]), (vec![], None));
    assert_eq!(render_tasks(&Selection { index: Some(0) }, &vec![]), (vec![], None));
}
