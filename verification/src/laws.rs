use crate::clock::Moment;
use crate::order::{
    has_id, highest_id, lemma_has_id_insert, lemma_highest_id_bounds, lemma_highest_id_insert,
    lemma_sort_by_id_of_sorted, lemma_sort_by_id_sorted, lemma_sort_keeps_highest_id,
    lemma_sort_keeps_ids, lemma_sort_keeps_unique_ids, lemma_unique_ids_insert, sort_by_id,
    sorted_by_id, unique_ids,
};
use crate::selection::Selection;
use crate::session::CommandView;
use crate::state::TaskState;
use crate::store::{with_added, with_advanced, with_removed};
use crate::task::TaskView;
use crate::writing::document_text;
use vstd::prelude::*;

verus! {

/// One step never leads back: the state after it stands where the state
/// before it stood, or one place further on.
pub proof fn lemma_next_never_regresses(state: TaskState)
    ensures
        state.rank() <= state.next().rank() <= state.rank() + 1,
        state.next().rank() == state.rank() <==> state == TaskState::Done,
{
}

/// After `steps` steps a state stands `steps` places further on, but never
/// past `Done`.
pub proof fn lemma_advanced_rank(state: TaskState, steps: nat)
    ensures
        state.advanced(steps).rank() == if state.rank() + steps <= 3 {
            state.rank() + steps
        } else {
            3
        },
    decreases steps,
{
    if steps > 0 {
        lemma_advanced_rank(state.next(), (steps - 1) as nat);
    }
}

/// The states that a new task visits, step by step, are `Pending`, `Started`,
/// `InProgress`, `Done`, and `Done` ever after.
pub proof fn lemma_states_visited(steps: nat)
    ensures
        TaskState::Pending.advanced(steps) == if steps == 0 {
            TaskState::Pending
        } else if steps == 1 {
            TaskState::Started
        } else if steps == 2 {
            TaskState::InProgress
        } else {
            TaskState::Done
        },
{
    lemma_advanced_rank(TaskState::Pending, steps);
}

/// Steps add up: `more` steps after `steps` steps are `steps + more` steps.
pub proof fn lemma_advanced_adds(state: TaskState, steps: nat, more: nat)
    ensures
        state.advanced(steps).advanced(more) == state.advanced(steps + more),
    decreases steps,
{
    if steps > 0 {
        lemma_advanced_adds(state.next(), (steps - 1) as nat, more);
    }
}

/// A task that moves forward at each of some times ends in the state that so
/// many steps lead to, whatever the times are; its number, its name and the
/// time of its creation stay.
pub proof fn lemma_task_follows_lifecycle(task: TaskView, times: Seq<Moment>)
    ensures
        task.advanced_through(times).state == task.state.advanced(times.len()),
        task.advanced_through(times).id == task.id,
        task.advanced_through(times).name == task.name,
        task.advanced_through(times).created_at == task.created_at,
    decreases times.len(),
{
    if times.len() > 0 {
        lemma_task_follows_lifecycle(task, times.drop_last());
        lemma_advanced_adds(task.state, (times.len() - 1) as nat, 1);
        assert(task.state.advanced((times.len() - 1) as nat).advanced(1)
            == task.state.advanced((times.len() - 1) as nat).next()) by {
            reveal_with_fuel(TaskState::advanced, 2);
        }
    }
}

/// A step forward at `Done` changes nothing. So a second step at `Done`
/// leaves the state and the time of the end as the first left them.
pub proof fn lemma_advance_is_idempotent_at_done(task: TaskView, first: Moment, second: Moment)
    requires
        task.state == TaskState::Done,
    ensures
        task.advanced(first) == task,
        task.advanced(first).advanced(second).state == task.advanced(first).state,
        task.advanced(first).advanced(second).finished_at == task.advanced(first).finished_at,
{
}

/// Once a task has reached `Done`, by whatever steps, a further step leaves
/// it as it is: a recorded time is never written over.
pub proof fn lemma_done_is_final(task: TaskView, now: Moment, later: Moment)
    requires
        task.advanced(now).state == TaskState::Done,
    ensures
        task.advanced(now).advanced(later) == task.advanced(now),
        task.advanced(now).finished_at is Some || task.state == TaskState::Done,
{
}

/// A time that is recorded stays: a step forward neither clears nor changes
/// the begin or the end of a task.
pub proof fn lemma_stamps_are_kept(task: TaskView, now: Moment)
    ensures
        task.started_at is Some ==> task.advanced(now).started_at == task.started_at,
        task.finished_at is Some ==> task.advanced(now).finished_at == task.finished_at,
        task.advanced(now).created_at == task.created_at,
{
}

/// A step forward keeps a task's times in step with its state, and keeps
/// them in order as long as the clock has not gone back behind the latest
/// time that the task records.
pub proof fn lemma_advance_keeps_task_sound(task: TaskView, now: Moment)
    ensures
        task.stamps_match_state() ==> task.advanced(now).stamps_match_state(),
        task.stamps_match_state() && task.chronological() && task.latest_stamp().at_or_before(now)
            ==> task.advanced(now).chronological(),
        TaskView::fresh(task.id, task.name, now).stamps_match_state(),
        TaskView::fresh(task.id, task.name, now).chronological(),
{
}

/// An addition takes the number one above the greatest in use, which no task
/// had before; the other numbers stay in use, there is one task more, and
/// numbers that differed before differ after.
pub proof fn lemma_addition_takes_next_id(tasks: Seq<TaskView>, name: Seq<char>, now: Moment)
    ensures
        with_added(tasks, name, now).len() == tasks.len() + 1,
        highest_id(with_added(tasks, name, now)) == highest_id(tasks) + 1,
        !has_id(tasks, highest_id(tasks) + 1),
        forall|id: int|
            has_id(with_added(tasks, name, now), id) <==> has_id(tasks, id) || id == highest_id(
                tasks,
            ) + 1,
        unique_ids(tasks) ==> unique_ids(with_added(tasks, name, now)),
        sorted_by_id(with_added(tasks, name, now)),
        with_added(tasks, name, now).to_multiset() == tasks.to_multiset().insert(
            TaskView::fresh(highest_id(tasks) + 1, name, now),
        ),
{
    let task = TaskView::fresh(highest_id(tasks) + 1, name, now);
    let grown = tasks.push(task);
    assert(grown =~= tasks.insert(tasks.len() as int, task));
    lemma_highest_id_bounds(tasks);
    lemma_sort_by_id_sorted(grown);
    lemma_sort_keeps_highest_id(grown);
    lemma_highest_id_insert(tasks, tasks.len() as int, task);
    assert forall|id: int|
        has_id(with_added(tasks, name, now), id) <==> has_id(tasks, id) || id == task.id by {
        lemma_sort_keeps_ids(grown, id);
        lemma_has_id_insert(tasks, tasks.len() as int, task, id);
    }
    if unique_ids(tasks) {
        lemma_unique_ids_insert(tasks, tasks.len() as int, task);
        lemma_sort_keeps_unique_ids(grown);
    }
    crate::order::lemma_sort_by_id_permutes(grown);
    vstd::seq_lib::to_multiset_build(tasks, task);
}

/// The name and the time of one addition.
pub struct Addition {
    pub name: Seq<char>,
    pub now: Moment,
}

/// The store after a row of additions, one after the other.
pub open spec fn with_all_added(tasks: Seq<TaskView>, additions: Seq<Addition>) -> Seq<TaskView>
    decreases additions.len(),
{
    if additions.len() == 0 {
        tasks
    } else {
        with_added(
            with_all_added(tasks, additions.drop_last()),
            additions.last().name,
            additions.last().now,
        )
    }
}

/// A row of additions takes the numbers that follow the greatest in use, one
/// by one: after `n` additions the greatest is `n` higher, each number up to
/// it is in use, and numbers that differed before differ after.
pub proof fn lemma_additions_count_up(tasks: Seq<TaskView>, additions: Seq<Addition>)
    ensures
        with_all_added(tasks, additions).len() == tasks.len() + additions.len(),
        highest_id(with_all_added(tasks, additions)) == highest_id(tasks) + additions.len(),
        forall|id: int|
            has_id(with_all_added(tasks, additions), id) <==> has_id(tasks, id) || highest_id(
                tasks,
            ) < id <= highest_id(tasks) + additions.len(),
        unique_ids(tasks) ==> unique_ids(with_all_added(tasks, additions)),
    decreases additions.len(),
{
    if additions.len() > 0 {
        let before = with_all_added(tasks, additions.drop_last());
        lemma_additions_count_up(tasks, additions.drop_last());
        lemma_addition_takes_next_id(before, additions.last().name, additions.last().now);
    }
}

/// A step forward and a removal keep the numbers of the tasks apart, and
/// bring no number into use that was free.
pub proof fn lemma_changes_keep_ids_unique(tasks: Seq<TaskView>, index: int, now: Moment)
    requires
        0 <= index < tasks.len(),
    ensures
        unique_ids(tasks) ==> unique_ids(with_advanced(tasks, index, now)),
        unique_ids(tasks) ==> unique_ids(with_removed(tasks, index)),
        forall|id: int| has_id(with_advanced(tasks, index, now), id) <==> has_id(tasks, id),
        forall|id: int| has_id(with_removed(tasks, index), id) ==> has_id(tasks, id),
        with_advanced(tasks, index, now).len() == tasks.len(),
        with_removed(tasks, index).len() == tasks.len() - 1,
{
    let stepped = tasks.update(index, tasks[index].advanced(now));
    let shorter = tasks.remove(index);
    tasks.remove_ensures(index);
    lemma_sort_by_id_sorted(stepped);
    lemma_sort_by_id_sorted(shorter);
    if unique_ids(tasks) {
        lemma_sort_keeps_unique_ids(stepped);
        lemma_sort_keeps_unique_ids(shorter);
    }
    assert forall|id: int| has_id(with_advanced(tasks, index, now), id) <==> has_id(
        tasks,
        id,
    ) by {
        lemma_sort_keeps_ids(stepped, id);
        if has_id(stepped, id) {
            let i = choose|i: int| 0 <= i < stepped.len() && #[trigger] stepped[i].id == id;
            assert(tasks[i].id == id);
        }
        if has_id(tasks, id) {
            let i = choose|i: int| 0 <= i < tasks.len() && #[trigger] tasks[i].id == id;
            assert(stepped[i].id == id);
        }
    }
    assert forall|id: int| has_id(with_removed(tasks, index), id) implies has_id(tasks, id) by {
        lemma_sort_keeps_ids(shorter, id);
        let i = choose|i: int| 0 <= i < shorter.len() && #[trigger] shorter[i].id == id;
        if i < index {
            assert(tasks[i].id == id);
        } else {
            assert(tasks[i + 1].id == id);
        }
    }
}

/// Saving tasks that are sorted by number already leaves them as they are,
/// and writes the text that their own order gives. Saving what a save gave
/// back changes nothing either.
pub proof fn lemma_saving_sorted_tasks_changes_nothing(tasks: Seq<TaskView>)
    ensures
        sorted_by_id(tasks) ==> sort_by_id(tasks) == tasks,
        sorted_by_id(tasks) ==> document_text(sort_by_id(tasks)) == document_text(tasks),
        sort_by_id(sort_by_id(tasks)) == sort_by_id(tasks),
        document_text(sort_by_id(sort_by_id(tasks))) == document_text(sort_by_id(tasks)),
{
    if sorted_by_id(tasks) {
        lemma_sort_by_id_of_sorted(tasks);
    }
    lemma_sort_by_id_sorted(tasks);
    lemma_sort_by_id_of_sorted(sort_by_id(tasks));
}

/// A selection that fits the list before a command fits the list after it.
pub proof fn lemma_command_keeps_selection_valid(
    command: CommandView,
    selection: Selection,
    len: nat,
)
    requires
        selection.valid_for(len),
        len < usize::MAX,
    ensures
        command.selection_after(selection, len).valid_for(command.len_after(selection, len)),
{
}

/// The number of tasks after a row of commands.
pub open spec fn len_after_all(commands: Seq<CommandView>, selection: Selection, len: nat) -> nat
    decreases commands.len(),
{
    if commands.len() == 0 {
        len
    } else {
        commands.last().len_after(
            selection_after_all(commands.drop_last(), selection, len),
            len_after_all(commands.drop_last(), selection, len),
        )
    }
}

/// The selection after a row of commands.
pub open spec fn selection_after_all(
    commands: Seq<CommandView>,
    selection: Selection,
    len: nat,
) -> Selection
    decreases commands.len(),
{
    if commands.len() == 0 {
        selection
    } else {
        commands.last().selection_after(
            selection_after_all(commands.drop_last(), selection, len),
            len_after_all(commands.drop_last(), selection, len),
        )
    }
}

/// After any row of additions, removals and moves of the selection, a
/// selection that fitted the list at the start fits the list at the end: it
/// picks one of its tasks, or nothing where the list is empty.
pub proof fn lemma_selection_stays_valid(
    commands: Seq<CommandView>,
    selection: Selection,
    len: nat,
)
    requires
        selection.valid_for(len),
        len + commands.len() < usize::MAX,
    ensures
        len_after_all(commands, selection, len) <= len + commands.len(),
        selection_after_all(commands, selection, len).valid_for(
            len_after_all(commands, selection, len),
        ),
    decreases commands.len(),
{
    if commands.len() > 0 {
        lemma_selection_stays_valid(commands.drop_last(), selection, len);
        lemma_command_keeps_selection_valid(
            commands.last(),
            selection_after_all(commands.drop_last(), selection, len),
            len_after_all(commands.drop_last(), selection, len),
        );
    }
}

} // verus!
