//! The life of a task that runs until it sees its sentinel, and the record
//! of what it did on the way.

use vstd::prelude::*;

verus! {

/// Where a task that ends on a sentinel stands.
///
/// A task is `Running` until it observes its sentinel, `Stopping` from then
/// until its function returns, and `Stopped` afterwards. There is no way
/// back.
#[derive(Clone, Copy, PartialEq, Eq, Debug, Structural)]
pub enum TaskState {
    Running,
    Stopping,
    Stopped,
}

impl TaskState {
    /// How far along its life a task is: 0 while running, 2 once stopped.
    pub open spec fn rank(self) -> nat {
        match self {
            TaskState::Running => 0,
            TaskState::Stopping => 1,
            TaskState::Stopped => 2,
        }
    }

    /// Whether the task still takes input.
    pub fn is_running(self) -> (running: bool)
        ensures
            running == (self == TaskState::Running),
    {
        match self {
            TaskState::Running => true,
            _ => false,
        }
    }

    /// The state once the task's function has returned.
    pub fn returned(self) -> (after: TaskState)
        ensures
            after == TaskState::Stopped,
            self.rank() <= after.rank(),
    {
        TaskState::Stopped
    }
}

/// What a task does on one input.
#[derive(Debug)]
pub struct TaskStep {
    /// The state afterwards.
    pub state: TaskState,
    /// The line to log, if any.
    pub line: Option<String>,
}

/// A task after some inputs: its state, how many of them it took, and what
/// it logged.
pub struct TaskTrace {
    pub state: TaskState,
    pub consumed: nat,
    pub log: Seq<Seq<char>>,
}

/// The log after one more step: longer by the step's line, if it has one.
pub open spec fn log_with(log: Seq<Seq<char>>, line: Option<Seq<char>>) -> Seq<Seq<char>> {
    match line {
        Some(text) => log.push(text),
        None => log,
    }
}

/// Appends a step's line, if it has one, to the log.
pub fn record(log: &mut Vec<String>, line: Option<String>)
    ensures
        final(log).deep_view() == log_with(old(log).deep_view(), line.deep_view()),
{
    match line {
        Some(text) => {
            log.push(text);
            assert(log.deep_view() =~= old(log).deep_view().push(text@));
        },
        None => {},
    }
}

} // verus!
