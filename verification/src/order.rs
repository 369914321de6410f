use crate::task::{Task, TaskView};
use vstd::prelude::*;

verus! {

/// No task stands before one with a smaller number.
pub open spec fn sorted_by_id(tasks: Seq<TaskView>) -> bool {
    forall|i: int, j: int| 0 <= i <= j < tasks.len() ==> tasks[i].id <= tasks[j].id
}

/// A sorted list with one task more: the task goes behind every task whose
/// number is not greater than its own.
pub open spec fn insert_by_id(sorted: Seq<TaskView>, task: TaskView) -> Seq<TaskView>
    decreases sorted.len(),
{
    if sorted.len() == 0 {
        seq![task]
    } else if sorted.last().id <= task.id {
        sorted.push(task)
    } else {
        insert_by_id(sorted.drop_last(), task).push(sorted.last())
    }
}

/// The tasks in ascending order of their numbers; tasks of one number keep
/// the order they had.
pub open spec fn sort_by_id(tasks: Seq<TaskView>) -> Seq<TaskView>
    decreases tasks.len(),
{
    if tasks.len() == 0 {
        tasks
    } else {
        insert_by_id(sort_by_id(tasks.drop_last()), tasks.last())
    }
}

/// The tasks of one number, in their order.
pub open spec fn with_id(tasks: Seq<TaskView>, id: int) -> Seq<TaskView>
    decreases tasks.len(),
{
    if tasks.len() == 0 {
        tasks
    } else if tasks.last().id == id {
        with_id(tasks.drop_last(), id).push(tasks.last())
    } else {
        with_id(tasks.drop_last(), id)
    }
}

/// What sorting by number means: the tasks stand in ascending order of
/// their numbers, and the tasks of each number are those that there were,
/// in the order that they had.
pub open spec fn sorted_form_of(sorted: Seq<TaskView>, tasks: Seq<TaskView>) -> bool {
    &&& sorted_by_id(sorted)
    &&& forall|id: int| #[trigger] with_id(sorted, id) == with_id(tasks, id)
}

/// No two tasks have one number.
pub open spec fn unique_ids(tasks: Seq<TaskView>) -> bool {
    forall|i: int, j: int| 0 <= i < j < tasks.len() ==> tasks[i].id != tasks[j].id
}

/// The greatest number among the tasks; 0 where there is no task.
pub open spec fn highest_id(tasks: Seq<TaskView>) -> int
    decreases tasks.len(),
{
    if tasks.len() == 0 {
        0
    } else if highest_id(tasks.drop_last()) >= tasks.last().id {
        highest_id(tasks.drop_last())
    } else {
        tasks.last().id
    }
}

/// Inserting puts the task at the place behind the last task whose number is
/// not greater, and leaves the others in their order.
pub proof fn lemma_insert_by_id_at(sorted: Seq<TaskView>, task: TaskView, at: int)
    requires
        0 <= at <= sorted.len(),
        at > 0 ==> sorted[at - 1].id <= task.id,
        forall|k: int| at <= k < sorted.len() ==> sorted[k].id > task.id,
    ensures
        insert_by_id(sorted, task) == sorted.insert(at, task),
    decreases sorted.len(),
{
    if sorted.len() > 0 && sorted.last().id > task.id {
        lemma_insert_by_id_at(sorted.drop_last(), task, at);
    }
}

/// The place at which `insert_by_id` puts a task.
pub open spec fn place_of(sorted: Seq<TaskView>, task: TaskView) -> int
    decreases sorted.len(),
{
    if sorted.len() == 0 {
        0
    } else if sorted.last().id <= task.id {
        sorted.len() as int
    } else {
        place_of(sorted.drop_last(), task)
    }
}

/// `insert_by_id` is an insertion at `place_of`, which lies behind the tasks
/// of smaller or equal number at the end it was looked for from.
pub proof fn lemma_insert_by_id_is_insert(sorted: Seq<TaskView>, task: TaskView)
    ensures
        0 <= place_of(sorted, task) <= sorted.len(),
        insert_by_id(sorted, task) == sorted.insert(place_of(sorted, task), task),
        place_of(sorted, task) > 0 ==> sorted[place_of(sorted, task) - 1].id <= task.id,
        forall|k: int| place_of(sorted, task) <= k < sorted.len() ==> sorted[k].id > task.id,
    decreases sorted.len(),
{
    if sorted.len() > 0 && sorted.last().id > task.id {
        let before = sorted.drop_last();
        lemma_insert_by_id_is_insert(before, task);
        let at = place_of(before, task);
        assert forall|k: int| at <= k < sorted.len() implies sorted[k].id > task.id by {
            if k < before.len() {
                assert(sorted[k] == before[k]);
            }
        }
    }
    lemma_insert_by_id_at(sorted, task, place_of(sorted, task));
}

/// Inserting into a sorted list gives a sorted list.
pub proof fn lemma_insert_by_id_sorted(sorted: Seq<TaskView>, task: TaskView)
    requires
        sorted_by_id(sorted),
    ensures
        sorted_by_id(insert_by_id(sorted, task)),
{
    lemma_insert_by_id_is_insert(sorted, task);
}

/// Sorting keeps the number of tasks and gives a sorted list.
pub proof fn lemma_sort_by_id_sorted(tasks: Seq<TaskView>)
    ensures
        sort_by_id(tasks).len() == tasks.len(),
        sorted_by_id(sort_by_id(tasks)),
    decreases tasks.len(),
{
    if tasks.len() > 0 {
        lemma_sort_by_id_sorted(tasks.drop_last());
        lemma_insert_by_id_sorted(sort_by_id(tasks.drop_last()), tasks.last());
        lemma_insert_by_id_is_insert(sort_by_id(tasks.drop_last()), tasks.last());
    }
}

/// Inserting a task puts it behind the tasks of its own number and leaves
/// the tasks of every other number as they were.
pub proof fn lemma_insert_by_id_groups(sorted: Seq<TaskView>, task: TaskView, id: int)
    ensures
        with_id(insert_by_id(sorted, task), id) == if task.id == id {
            with_id(sorted, id).push(task)
        } else {
            with_id(sorted, id)
        },
    decreases sorted.len(),
{
    if sorted.len() == 0 {
        assert(seq![task].drop_last() =~= sorted);
    } else if sorted.last().id <= task.id {
        assert(sorted.push(task).drop_last() =~= sorted);
    } else {
        let before = insert_by_id(sorted.drop_last(), task);
        lemma_insert_by_id_groups(sorted.drop_last(), task, id);
        assert(before.push(sorted.last()).drop_last() =~= before);
    }
}

/// Sorting gives the sorted form of the tasks.
pub proof fn lemma_sort_by_id_is_sorted_form(tasks: Seq<TaskView>)
    ensures
        sorted_form_of(sort_by_id(tasks), tasks),
    decreases tasks.len(),
{
    lemma_sort_by_id_sorted(tasks);
    if tasks.len() > 0 {
        lemma_sort_by_id_is_sorted_form(tasks.drop_last());
        assert forall|id: int| #[trigger]
            with_id(sort_by_id(tasks), id) == with_id(tasks, id) by {
            lemma_insert_by_id_groups(sort_by_id(tasks.drop_last()), tasks.last(), id);
        }
    }
}

/// A number has tasks exactly if it is in use; and every task of a number
/// stands among the tasks of that number.
pub proof fn lemma_with_id_is_empty(tasks: Seq<TaskView>, id: int)
    ensures
        with_id(tasks, id).len() > 0 <==> has_id(tasks, id),
    decreases tasks.len(),
{
    if tasks.len() > 0 {
        let before = tasks.drop_last();
        lemma_with_id_is_empty(before, id);
        if has_id(tasks, id) && tasks.last().id != id {
            let i = choose|i: int| 0 <= i < tasks.len() && #[trigger] tasks[i].id == id;
            assert(before[i].id == id);
        }
        if has_id(before, id) {
            let i = choose|i: int| 0 <= i < before.len() && #[trigger] before[i].id == id;
            assert(tasks[i].id == id);
        }
        if tasks.last().id == id {
            assert(tasks[tasks.len() - 1].id == id);
        }
    }
}

/// The sorted form is one: whatever is a sorted form of the tasks is what
/// sorting them gives.
pub proof fn lemma_sorted_form_is_unique(sorted: Seq<TaskView>, tasks: Seq<TaskView>)
    requires
        sorted_form_of(sorted, tasks),
    ensures
        sorted == sort_by_id(tasks),
{
    lemma_sort_by_id_is_sorted_form(tasks);
    lemma_sorted_with_same_groups(sorted, sort_by_id(tasks));
}

/// Two sorted lists that hold the same tasks under each number are one list.
proof fn lemma_sorted_with_same_groups(left: Seq<TaskView>, right: Seq<TaskView>)
    requires
        sorted_by_id(left),
        sorted_by_id(right),
        forall|id: int| #[trigger] with_id(left, id) == with_id(right, id),
    ensures
        left == right,
    decreases left.len(),
{
    if left.len() == 0 {
        if right.len() > 0 {
            lemma_with_id_is_empty(right, right[0].id);
            assert(with_id(left, right[0].id) == with_id(right, right[0].id));
        }
    } else {
        // The last task of each list has the greatest number of that list,
        // and each of the two numbers is in use in the other list.
        let top = left.last().id;
        let other = right.last().id;
        assert(left[left.len() - 1].id == top);
        assert(right[right.len() - 1].id == other);
        lemma_with_id_is_empty(left, top);
        lemma_with_id_is_empty(right, top);
        lemma_with_id_is_empty(left, other);
        lemma_with_id_is_empty(right, other);
        assert(with_id(left, top) == with_id(right, top));
        assert(with_id(left, other) == with_id(right, other));
        let i = choose|i: int| 0 <= i < right.len() && #[trigger] right[i].id == top;
        let j = choose|j: int| 0 <= j < left.len() && #[trigger] left[j].id == other;
        assert(right[i].id <= right[right.len() - 1].id);
        assert(left[j].id <= left[left.len() - 1].id);
        assert(top == other);
        // So the two lists end in the same task, the last of that number.
        assert(with_id(left, top).last() == left.last());
        assert(with_id(right, top).last() == right.last());
        assert forall|id: int| #[trigger]
            with_id(left.drop_last(), id) == with_id(right.drop_last(), id) by {
            assert(with_id(left, id) == with_id(right, id));
            if id == top {
                assert(with_id(left.drop_last(), id) =~= with_id(left, id).drop_last());
                assert(with_id(right.drop_last(), id) =~= with_id(right, id).drop_last());
            }
        }
        lemma_sorted_with_same_groups(left.drop_last(), right.drop_last());
        assert(left =~= left.drop_last().push(left.last()));
        assert(right =~= right.drop_last().push(right.last()));
    }
}

/// Sorting loses no task and makes none up: each task occurs as often after
/// as before.
pub proof fn lemma_sort_by_id_permutes(tasks: Seq<TaskView>)
    ensures
        sort_by_id(tasks).to_multiset() == tasks.to_multiset(),
    decreases tasks.len(),
{
    if tasks.len() > 0 {
        let before = tasks.drop_last();
        let sorted = sort_by_id(before);
        lemma_sort_by_id_permutes(before);
        lemma_insert_by_id_is_insert(sorted, tasks.last());
        vstd::seq_lib::to_multiset_insert(sorted, place_of(sorted, tasks.last()), tasks.last());
        vstd::seq_lib::to_multiset_build(before, tasks.last());
        assert(before.push(tasks.last()) =~= tasks);
    }
}

/// A list that is sorted already is what sorting it gives.
pub proof fn lemma_sort_by_id_of_sorted(tasks: Seq<TaskView>)
    requires
        sorted_by_id(tasks),
    ensures
        sort_by_id(tasks) == tasks,
    decreases tasks.len(),
{
    if tasks.len() > 0 {
        lemma_sort_by_id_of_sorted(tasks.drop_last());
    }
}

/// Whether some task has this number.
pub open spec fn has_id(tasks: Seq<TaskView>, id: int) -> bool {
    exists|i: int| 0 <= i < tasks.len() && #[trigger] tasks[i].id == id
}

/// The greatest number is not below 0 nor below the number of any task, and
/// unless it is 0 some task has it.
pub proof fn lemma_highest_id_bounds(tasks: Seq<TaskView>)
    ensures
        highest_id(tasks) >= 0,
        forall|i: int| 0 <= i < tasks.len() ==> #[trigger] tasks[i].id <= highest_id(tasks),
        highest_id(tasks) == 0 || has_id(tasks, highest_id(tasks)),
    decreases tasks.len(),
{
    if tasks.len() > 0 {
        let before = tasks.drop_last();
        lemma_highest_id_bounds(before);
        assert forall|i: int| 0 <= i < tasks.len() implies #[trigger] tasks[i].id <= highest_id(
            tasks,
        ) by {
            if i < before.len() {
                assert(tasks[i] == before[i]);
            }
        }
        if highest_id(tasks) != 0 {
            if highest_id(before) >= tasks.last().id {
                let i = choose|i: int| 0 <= i < before.len() && #[trigger] before[i].id
                    == highest_id(before);
                assert(tasks[i].id == highest_id(tasks));
            } else {
                assert(tasks[tasks.len() - 1].id == highest_id(tasks));
            }
        }
    }
}

/// With one task more, the greatest number is the old one or the number of
/// that task, whichever is greater.
pub proof fn lemma_highest_id_insert(tasks: Seq<TaskView>, at: int, task: TaskView)
    requires
        0 <= at <= tasks.len(),
    ensures
        highest_id(tasks.insert(at, task)) == if highest_id(tasks) >= task.id {
            highest_id(tasks)
        } else {
            task.id
        },
    decreases tasks.len(),
{
    let grown = tasks.insert(at, task);
    if at == tasks.len() {
        assert(grown.drop_last() =~= tasks);
    } else {
        let before = tasks.drop_last();
        lemma_highest_id_insert(before, at, task);
        assert(grown.drop_last() =~= before.insert(at, task));
    }
}

/// Sorting keeps the greatest number.
pub proof fn lemma_sort_keeps_highest_id(tasks: Seq<TaskView>)
    ensures
        highest_id(sort_by_id(tasks)) == highest_id(tasks),
    decreases tasks.len(),
{
    if tasks.len() > 0 {
        let sorted = sort_by_id(tasks.drop_last());
        lemma_sort_keeps_highest_id(tasks.drop_last());
        lemma_insert_by_id_is_insert(sorted, tasks.last());
        lemma_highest_id_insert(sorted, place_of(sorted, tasks.last()), tasks.last());
    }
}

/// With one task more, the numbers in use are the old ones and the number of
/// that task.
pub proof fn lemma_has_id_insert(tasks: Seq<TaskView>, at: int, task: TaskView, id: int)
    requires
        0 <= at <= tasks.len(),
    ensures
        has_id(tasks.insert(at, task), id) <==> has_id(tasks, id) || task.id == id,
{
    let grown = tasks.insert(at, task);
    tasks.insert_ensures(at, task);
    if has_id(grown, id) {
        let i = choose|i: int| 0 <= i < grown.len() && #[trigger] grown[i].id == id;
        if i < at {
            assert(tasks[i].id == id);
        } else if i > at {
            assert(tasks[i - 1].id == id);
        }
    }
    if has_id(tasks, id) {
        let i = choose|i: int| 0 <= i < tasks.len() && #[trigger] tasks[i].id == id;
        if i < at {
            assert(grown[i].id == id);
        } else {
            assert(grown[i + 1].id == id);
        }
    }
    if task.id == id {
        assert(grown[at].id == id);
    }
}

/// Sorting keeps the numbers in use.
pub proof fn lemma_sort_keeps_ids(tasks: Seq<TaskView>, id: int)
    ensures
        has_id(sort_by_id(tasks), id) <==> has_id(tasks, id),
    decreases tasks.len(),
{
    if tasks.len() > 0 {
        let before = tasks.drop_last();
        let sorted = sort_by_id(before);
        lemma_sort_keeps_ids(before, id);
        lemma_insert_by_id_is_insert(sorted, tasks.last());
        lemma_has_id_insert(sorted, place_of(sorted, tasks.last()), tasks.last(), id);
        assert(before.insert(before.len() as int, tasks.last()) =~= tasks);
        lemma_has_id_insert(before, before.len() as int, tasks.last(), id);
    }
}

/// With one task more, no number is in use twice exactly if none was before
/// and the number of that task was free.
pub proof fn lemma_unique_ids_insert(tasks: Seq<TaskView>, at: int, task: TaskView)
    requires
        0 <= at <= tasks.len(),
    ensures
        unique_ids(tasks.insert(at, task)) <==> unique_ids(tasks) && !has_id(tasks, task.id),
{
    let grown = tasks.insert(at, task);
    tasks.insert_ensures(at, task);
    // Where a task of the shorter list stands in the longer one.
    let up = |i: int| if i < at { i } else { i + 1 };
    if unique_ids(grown) {
        assert forall|i: int, j: int| 0 <= i < j < tasks.len() implies tasks[i].id
            != tasks[j].id by {
            assert(grown[up(i)] == tasks[i]);
            assert(grown[up(j)] == tasks[j]);
        }
        if has_id(tasks, task.id) {
            let i = choose|i: int| 0 <= i < tasks.len() && #[trigger] tasks[i].id == task.id;
            // Then two places of the longer list held one number.
            assert(grown[up(i)] == tasks[i]);
            assert(grown[at] == task);
            assert(up(i) != at && grown[up(i)].id == grown[at].id);
        }
    }
}

/// Sorting tasks whose numbers differ gives tasks whose numbers differ.
pub proof fn lemma_sort_keeps_unique_ids(tasks: Seq<TaskView>)
    requires
        unique_ids(tasks),
    ensures
        unique_ids(sort_by_id(tasks)),
    decreases tasks.len(),
{
    if tasks.len() > 0 {
        let before = tasks.drop_last();
        let sorted = sort_by_id(before);
        lemma_unique_ids_insert(before, before.len() as int, tasks.last());
        lemma_sort_keeps_unique_ids(before);
        lemma_sort_keeps_ids(before, tasks.last().id);
        lemma_insert_by_id_is_insert(sorted, tasks.last());
        lemma_unique_ids_insert(sorted, place_of(sorted, tasks.last()), tasks.last());
    }
}

/// The greatest number among the tasks; 0 where there is no task.
pub fn greatest_id(tasks: &Vec<Task>) -> (greatest: usize)
    ensures
        greatest == highest_id(tasks.deep_view()),
{
    let mut greatest: usize = 0;
    let mut at: usize = 0;
    while at < tasks.len()
        invariant
            at <= tasks.len(),
            greatest == highest_id(tasks.deep_view().take(at as int)),
        decreases tasks.len() - at,
    {
        proof {
            let all = tasks.deep_view();
            assert(all.take(at + 1).drop_last() =~= all.take(at as int));
        }
        if tasks[at].id > greatest {
            greatest = tasks[at].id;
        }
        at += 1;
    }
    assert(tasks.deep_view().take(at as int) =~= tasks.deep_view());
    greatest
}

/// Sorts tasks by their numbers, ascending; tasks of one number keep their
/// order.
pub fn sort_tasks(tasks: Vec<Task>) -> (sorted: Vec<Task>)
    ensures
        sorted.deep_view() == sort_by_id(tasks.deep_view()),
        sorted_form_of(sorted.deep_view(), tasks.deep_view()),
        sorted.deep_view().to_multiset() == tasks.deep_view().to_multiset(),
        sorted.len() == tasks.len(),
{
    let ghost unsorted = tasks.deep_view();
    proof {
        lemma_sort_by_id_sorted(unsorted);
        lemma_sort_by_id_is_sorted_form(unsorted);
        lemma_sort_by_id_permutes(unsorted);
    }
    let mut sorted = tasks;
    let mut done: usize = 0;
    while done < sorted.len()
        invariant
            done <= sorted.len(),
            sorted.len() == unsorted.len(),
            sorted.deep_view() == sort_by_id(unsorted.take(done as int)) + unsorted.skip(
                done as int,
            ),
        decreases sorted.len() - done,
    {
        let ghost prefix = sort_by_id(unsorted.take(done as int));
        let ghost before = sorted.deep_view();
        proof {
            lemma_sort_by_id_sorted(unsorted.take(done as int));
            assert(before[done as int] == unsorted[done as int]);
        }
        let ghost held = sorted@;
        let task = sorted.remove(done);
        let ghost without = sorted.deep_view();
        proof {
            held.remove_ensures(done as int);
            let rest = prefix + unsorted.skip(done + 1);
            assert forall|i: int| 0 <= i < without.len() implies without[i] == rest[i] by {
                if i < done {
                    assert(before[i] == held[i]@);
                } else {
                    assert(before[i + 1] == held[i + 1]@);
                }
            }
        }
        let mut at: usize = done;
        while at > 0 && sorted[at - 1].id > task.id
            invariant
                at <= done,
                done <= sorted.len(),
                sorted.deep_view() == without,
                without == prefix + unsorted.skip(done + 1),
                prefix.len() == done,
                forall|k: int| at <= k < done ==> prefix[k].id > task@.id,
            decreases at,
        {
            proof {
                assert(without[at - 1] == prefix[at - 1]);
            }
            at -= 1;
        }
        proof {
            if at > 0 {
                assert(without[at - 1] == prefix[at - 1]);
            }
            lemma_insert_by_id_at(prefix, task@, at as int);
        }
        let ghost short = sorted@;
        sorted.insert(at, task);
        proof {
            let next = unsorted.take(done + 1);
            assert(next.drop_last() =~= unsorted.take(done as int));
            short.insert_ensures(at as int, task);
            prefix.insert_ensures(at as int, task@);
            let grown = prefix.insert(at as int, task@) + unsorted.skip(done + 1);
            let now = sorted.deep_view();
            assert forall|i: int| 0 <= i < now.len() implies now[i] == grown[i] by {
                if i < at {
                    assert(without[i] == short[i]@);
                } else if i > at {
                    assert(without[i - 1] == short[i - 1]@);
                }
            }
        }
        done += 1;
    }
    sorted
}

} // verus!
