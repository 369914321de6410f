use crate::clock::{display_text, Moment, Timestamp};
use crate::state::TaskState;
use crate::text::{decimal, decimal_text};
use vstd::prelude::*;

verus! {

/// A task as mathematics sees it.
pub struct TaskView {
    pub id: int,
    pub name: Seq<char>,
    pub state: TaskState,
    pub created_at: Moment,
    pub started_at: Option<Moment>,
    pub finished_at: Option<Moment>,
}

impl TaskView {
    /// The task that creation gives: pending, and neither begun nor ended.
    pub open spec fn fresh(id: int, name: Seq<char>, now: Moment) -> TaskView {
        TaskView {
            id,
            name,
            state: TaskState::Pending,
            created_at: now,
            started_at: None,
            finished_at: None,
        }
    }

    /// The task after one step forward at the time `now`. Entering `Started`
    /// records when the task was begun, entering `Done` when it was ended; a
    /// time that is already recorded is kept. At `Done` nothing changes.
    pub open spec fn advanced(self, now: Moment) -> TaskView {
        match self.state {
            TaskState::Pending => TaskView {
                state: TaskState::Started,
                started_at: if self.started_at is None {
                    Some(now)
                } else {
                    self.started_at
                },
                ..self
            },
            TaskState::Started => TaskView { state: TaskState::InProgress, ..self },
            TaskState::InProgress => TaskView {
                state: TaskState::Done,
                finished_at: if self.finished_at is None {
                    Some(now)
                } else {
                    self.finished_at
                },
                ..self
            },
            TaskState::Done => self,
        }
    }

    /// The task after one step forward at each of `times`, in turn.
    pub open spec fn advanced_through(self, times: Seq<Moment>) -> TaskView
        decreases times.len(),
    {
        if times.len() == 0 {
            self
        } else {
            self.advanced_through(times.drop_last()).advanced(times.last())
        }
    }

    /// The two later times are recorded exactly once their states were
    /// reached: a begin from `Started` on, an end at `Done`.
    pub open spec fn stamps_match_state(self) -> bool {
        &&& self.started_at is Some <==> self.state != TaskState::Pending
        &&& self.finished_at is Some <==> self.state == TaskState::Done
    }

    /// No recorded time lies before an earlier one: created, then begun, then
    /// ended.
    pub open spec fn chronological(self) -> bool {
        &&& self.started_at matches Some(started) ==> self.created_at.at_or_before(started)
        &&& self.finished_at matches Some(finished) ==> self.created_at.at_or_before(finished)
        &&& self.started_at matches Some(started) ==> (self.finished_at matches Some(finished)
            ==> started.at_or_before(finished))
    }

    /// The latest time that the task records.
    pub open spec fn latest_stamp(self) -> Moment {
        match (self.started_at, self.finished_at) {
            (_, Some(finished)) => finished,
            (Some(started), None) => started,
            (None, None) => self.created_at,
        }
    }

    /// The texts of the task's detail line: number, name, state and creation
    /// time, then the begin and the end as far as they are recorded.
    pub open spec fn row_cells(self) -> Seq<Seq<char>> {
        let fixed = seq![
            decimal(self.id as nat),
            self.name,
            self.state.token(),
            display_text(self.created_at.secs, self.created_at.nanos),
        ];
        let begun = match self.started_at {
            Some(started) => fixed.push(display_text(started.secs, started.nanos)),
            None => fixed,
        };
        match self.finished_at {
            Some(finished) => begun.push(display_text(finished.secs, finished.nanos)),
            None => begun,
        }
    }

    /// The headings over the detail line, one for each of its texts.
    pub open spec fn header_labels(self) -> Seq<Seq<char>> {
        let fixed = seq!["ID"@, "Name"@, "State"@, "Created At"@];
        let begun = if self.started_at is Some {
            fixed.push("Started At"@)
        } else {
            fixed
        };
        if self.finished_at is Some {
            begun.push("Finished At"@)
        } else {
            begun
        }
    }

    /// The share of the detail line's width, in percent, that each column
    /// takes: one column more from `Started` on, and one more at `Done`.
    pub open spec fn column_percentages(self) -> Seq<u16> {
        match self.state {
            TaskState::Pending => seq![5u16, 20u16, 15u16, 19u16],
            TaskState::Started => seq![5u16, 20u16, 15u16, 19u16, 19u16],
            TaskState::InProgress => seq![5u16, 20u16, 15u16, 19u16, 19u16],
            TaskState::Done => seq![5u16, 20u16, 15u16, 19u16, 19u16, 19u16],
        }
    }
}

/// One thing to do: its number, its name, how far it has come, and when.
#[derive(Clone, Debug, PartialEq, Eq)]
pub struct Task {
    pub id: usize,
    pub name: String,
    pub state: TaskState,
    pub created_at: Timestamp,
    pub started_at: Option<Timestamp>,
    pub finished_at: Option<Timestamp>,
}

impl View for Task {
    type V = TaskView;

    open spec fn view(&self) -> TaskView {
        TaskView {
            id: self.id as int,
            name: self.name@,
            state: self.state,
            created_at: self.created_at@,
            started_at: self.started_at.deep_view(),
            finished_at: self.finished_at.deep_view(),
        }
    }
}

impl DeepView for Task {
    type V = TaskView;

    open spec fn deep_view(&self) -> TaskView {
        self@
    }
}

impl Task {
    /// A new task, created at the time `now`.
    pub fn create_task_at(number: usize, task_name: String, now: Timestamp) -> (task: Task)
        ensures
            task@ == TaskView::fresh(number as int, task_name@, now@),
    {
        let task_state = TaskState::new();
        Task {
            id: number,
            name: task_name,
            state: task_state,
            created_at: now,
            started_at: None,
            finished_at: None,
        }
    }

    /// A new task, created now by the machine's clock.
    pub fn create_task(number: usize, task_name: String) -> (task: Task)
        ensures
            task@ == TaskView::fresh(number as int, task_name@, task@.created_at),
    {
        Task::create_task_at(number, task_name, Timestamp::now())
    }

    /// Moves the task one step forward at the time `now`.
    pub fn progress_at(&mut self, now: Timestamp)
        ensures
            final(self)@ == old(self)@.advanced(now@),
    {
        let mut was = self.state;
        self.state = was.progress();
        match was {
            TaskState::Pending => {
                if self.started_at.is_none() {
                    self.started_at = Some(now);
                }
            },
            TaskState::InProgress => {
                if self.finished_at.is_none() {
                    self.finished_at = Some(now);
                }
            },
            _ => {},
        }
    }

    /// Moves the task one step forward, now by the machine's clock.
    pub fn progress(&mut self)
        ensures
            exists|now: Moment| final(self)@ == #[trigger] old(self)@.advanced(now),
    {
        let now = Timestamp::now();
        self.progress_at(now);
    }

    /// The texts of the task's detail line.
    pub fn create_table_row(&self) -> (cells: Vec<String>)
        ensures
            cells.deep_view() == self@.row_cells(),
    {
        let mut cells: Vec<String> = Vec::new();
        cells.push(decimal_text(self.id as u64));
        cells.push(self.name.clone());
        cells.push(self.state.to_string());
        cells.push(self.created_at.to_string());
        if let Some(started_at) = self.started_at {
            cells.push(started_at.to_string());
        }
        if let Some(finished) = self.finished_at {
            cells.push(finished.to_string());
        }
        cells
    }

    /// The headings over the task's detail line.
    pub fn create_header_row(&self) -> (labels: Vec<&'static str>)
        ensures
            labels.deep_view() == self@.header_labels(),
    {
        let mut labels: Vec<&'static str> = Vec::new();
        labels.push("ID");
        labels.push("Name");
        labels.push("State");
        labels.push("Created At");
        if let Some(_) = self.started_at {
            labels.push("Started At");
        }
        if let Some(_) = self.finished_at {
            labels.push("Finished At");
        }
        labels
    }

    /// The widths of the detail line's columns, in percent.
    pub fn create_block_constraints(self) -> (percentages: Vec<u16>)
        ensures
            percentages@ == self@.column_percentages(),
    {
        let mut percentages: Vec<u16> = Vec::new();
        percentages.push(5);
        percentages.push(20);
        percentages.push(15);
        percentages.push(19);
        match self.state {
            TaskState::Pending => {},
            TaskState::Started => {
                percentages.push(19);
            },
            TaskState::InProgress => {
                percentages.push(19);
            },
            TaskState::Done => {
                percentages.push(19);
                percentages.push(19);
            },
        }
        percentages
    }
}

} // verus!
