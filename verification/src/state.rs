use crate::error::Error;
use vstd::prelude::*;

verus! {

/// Where a task stands in its lifecycle. A task only ever moves forward:
/// `Pending`, `Started`, `InProgress`, `Done`, and there it stays.
#[derive(Clone, Copy, Debug, PartialEq, Eq, Structural)]
pub enum TaskState {
    Pending,
    Started,
    InProgress,
    Done,
}

impl TaskState {
    /// The position of the state in the lifecycle, from 0 to 3.
    pub open spec fn rank(self) -> nat {
        match self {
            TaskState::Pending => 0,
            TaskState::Started => 1,
            TaskState::InProgress => 2,
            TaskState::Done => 3,
        }
    }

    /// The state at a position; positions past the end have none.
    pub open spec fn from_rank(rank: nat) -> Option<TaskState> {
        if rank == 0 {
            Some(TaskState::Pending)
        } else if rank == 1 {
            Some(TaskState::Started)
        } else if rank == 2 {
            Some(TaskState::InProgress)
        } else if rank == 3 {
            Some(TaskState::Done)
        } else {
            None
        }
    }

    /// The state one step on; `Done` is its own successor.
    pub open spec fn next(self) -> TaskState {
        match self {
            TaskState::Pending => TaskState::Started,
            TaskState::Started => TaskState::InProgress,
            TaskState::InProgress => TaskState::Done,
            TaskState::Done => TaskState::Done,
        }
    }

    /// The state after `steps` steps.
    pub open spec fn advanced(self, steps: nat) -> TaskState
        decreases steps,
    {
        if steps == 0 {
            self
        } else {
            self.next().advanced((steps - 1) as nat)
        }
    }

    /// The text by which the state is stored and shown.
    pub open spec fn token(self) -> Seq<char> {
        match self {
            TaskState::Pending => "pending"@,
            TaskState::Started => "started"@,
            TaskState::InProgress => "in progress"@,
            TaskState::Done => "done"@,
        }
    }

    /// The state that a text names, if it names one.
    pub open spec fn from_token(token: Seq<char>) -> Option<TaskState> {
        if token == "pending"@ {
            Some(TaskState::Pending)
        } else if token == "started"@ {
            Some(TaskState::Started)
        } else if token == "in progress"@ {
            Some(TaskState::InProgress)
        } else if token == "done"@ {
            Some(TaskState::Done)
        } else {
            None
        }
    }

    /// The state of a task that was just created.
    pub fn new() -> (state: TaskState)
        ensures
            state == TaskState::Pending,
    {
        TaskState::Pending
    }

    pub fn to_string(&self) -> (text: String)
        ensures
            text@ == self.token(),
    {
        let text: &str = match self {
            TaskState::Pending => "pending",
            TaskState::Started => "started",
            TaskState::InProgress => "in progress",
            TaskState::Done => "done",
        };
        text.to_owned()
    }

    /// The state one step on. The receiver itself is left as it was.
    pub fn progress(&mut self) -> (next: Self)
        ensures
            next == old(self).next(),
            *final(self) == *old(self),
    {
        match self {
            TaskState::Pending => TaskState::Started,
            TaskState::Started => TaskState::InProgress,
            TaskState::InProgress => TaskState::Done,
            TaskState::Done => TaskState::Done,
        }
    }
}

/// Each state is read back from its own token, and from its own position:
/// no two states share a token or a position.
pub proof fn lemma_state_reads_back(state: TaskState)
    ensures
        TaskState::from_token(state.token()) == Some(state),
        TaskState::from_rank(state.rank()) == Some(state),
{
    reveal_strlit("pending");
    reveal_strlit("started");
    reveal_strlit("in progress");
    reveal_strlit("done");
    assert("pending"@.len() == 7 && "pending"@[0] == 'p');
    assert("started"@.len() == 7 && "started"@[0] == 's');
    assert("in progress"@.len() == 11);
    assert("done"@.len() == 4);
}

impl Default for TaskState {
    fn default() -> (state: Self)
        ensures
            state == TaskState::Pending,
    {
        Self::new()
    }
}

impl<'a> TryFrom<&'a str> for TaskState {
    type Error = Error;

    /// Reads a stored token. A text that is none of the four tokens is an
    /// error; it is never taken for `Pending`.
    fn try_from(value: &'a str) -> (result: Result<Self, Error>) {
        let token = value.to_owned();
        if token == "pending".to_owned() {
            Ok(TaskState::Pending)
        } else if token == "started".to_owned() {
            Ok(TaskState::Started)
        } else if token == "in progress".to_owned() {
            Ok(TaskState::InProgress)
        } else if token == "done".to_owned() {
            Ok(TaskState::Done)
        } else {
            Err(Error::InvalidState)
        }
    }
}

impl<'a> vstd::std_specs::convert::TryFromSpecImpl<&'a str> for TaskState {
    open spec fn obeys_try_from_spec() -> bool {
        true
    }

    open spec fn try_from_spec(value: &'a str) -> Result<Self, Error> {
        match TaskState::from_token(value@) {
            Some(state) => Ok(state),
            None => Err(Error::InvalidState),
        }
    }
}

impl TryFrom<usize> for TaskState {
    type Error = Error;

    /// Reads a position in the lifecycle, 0 to 3.
    fn try_from(value: usize) -> (result: Result<Self, Error>) {
        if value == 0 {
            Ok(TaskState::Pending)
        } else if value == 1 {
            Ok(TaskState::Started)
        } else if value == 2 {
            Ok(TaskState::InProgress)
        } else if value == 3 {
            Ok(TaskState::Done)
        } else {
            Err(Error::InvalidState)
        }
    }
}

impl vstd::std_specs::convert::TryFromSpecImpl<usize> for TaskState {
    open spec fn obeys_try_from_spec() -> bool {
        true
    }

    open spec fn try_from_spec(value: usize) -> Result<Self, Error> {
        match TaskState::from_rank(value as nat) {
            Some(state) => Ok(state),
            None => Err(Error::InvalidState),
        }
    }
}

} // verus!
