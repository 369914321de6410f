use crate::selection::Selection;
use crate::task::{Task, TaskView};
use vstd::prelude::*;

verus! {

/// A rectangle of the terminal, in cells.
#[derive(Clone, Copy, Debug, PartialEq, Eq, Structural)]
pub struct Rect {
    pub x: u16,
    pub y: u16,
    pub width: u16,
    pub height: u16,
}

/// The number of terminal columns that the unicode-width crate gives a text.
pub uninterp spec fn text_width(text: Seq<char>) -> nat;

/// `UnicodeWidthStr::width` of the unicode-width crate. The result is named,
/// not stated: the widths of characters are the crate's tables.
#[verifier::external_body]
fn display_width(text: &str) -> (width: usize)
    ensures
        width == text_width(text@),
{
    unicode_width::UnicodeWidthStr::width(text)
}

/// The three shares, in percent, that put a part of `percent` percent into
/// the middle of a line: what is left is halved, rounded down, for the two
/// sides.
pub open spec fn centered(percent: u16) -> (u16, u16, u16) {
    (((100 - percent) / 2) as u16, percent, ((100 - percent) / 2) as u16)
}

/// The shares of a line for a centered part of `percent` percent.
pub fn centered_constraints(percent: u16) -> (shares: (u16, u16, u16))
    requires
        percent <= 100,
    ensures
        shares == centered(percent),
        shares.0 + shares.1 + shares.2 <= 100,
{
    ((100 - percent) / 2, percent, (100 - percent) / 2)
}

/// Where the cursor stands in an input box whose text is `width` columns
/// wide: one column past the text, inside the left border, and one line
/// below the upper border. `None` where that is no cell a terminal can have.
pub open spec fn cursor_in(area: Rect, width: nat) -> Option<(u16, u16)> {
    if area.x + width + 1 <= u16::MAX && area.y + 1 <= u16::MAX {
        Some(((area.x + width + 1) as u16, (area.y + 1) as u16))
    } else {
        None
    }
}

/// The cursor's cell for a text of the given width.
pub fn cursor_after(area: Rect, width: usize) -> (cell: Option<(u16, u16)>)
    ensures
        cell == cursor_in(area, width as nat),
{
    if area.y == u16::MAX {
        return None;
    }
    let room: u16 = u16::MAX - area.x;
    if room == 0 || width > (room - 1) as usize {
        return None;
    }
    Some((area.x + width as u16 + 1, area.y + 1))
}

/// The cursor's cell behind the text of the input box.
pub fn cursor_position(area: Rect, input: &str) -> (cell: Option<(u16, u16)>)
    ensures
        cell == cursor_in(area, text_width(input@)),
{
    cursor_after(area, display_width(input))
}

/// The names of the tasks, in their order: the lines of the task list.
pub open spec fn names_of(tasks: Seq<TaskView>) -> Seq<Seq<char>> {
    Seq::new(tasks.len(), |i: int| tasks[i].name)
}

/// What the task screen shows: the names of the tasks, and the position of
/// the task whose detail stands beside them.
pub fn render_tasks(task_list_state: &Selection, tasks: &Vec<Task>) -> (shown: (
    Vec<String>,
    Option<usize>,
))
    ensures
        shown.0.deep_view() == names_of(tasks.deep_view()),
        match shown.1 {
            Some(index) => task_list_state.detail(tasks.len() as nat) == Some(index as int),
            None => task_list_state.detail(tasks.len() as nat) is None,
        },
{
    let mut items: Vec<String> = Vec::new();
    let mut at: usize = 0;
    while at < tasks.len()
        invariant
            at <= tasks.len(),
            items.len() == at,
            forall|i: int| 0 <= i < at ==> #[trigger] items[i]@ == tasks[i]@.name,
        decreases tasks.len() - at,
    {
        items.push(tasks[at].name.clone());
        at += 1;
    }
    let wanted = match task_list_state.selected() {
        Some(selected) => selected,
        None => 0,
    };
    let selected_task = if wanted < tasks.len() {
        Some(wanted)
    } else {
        None
    };
    (items, selected_task)
}

} // verus!
