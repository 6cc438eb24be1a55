//! The supervisor: what the process does, in which order, from its first
//! step to its exit.
//!
//! The supervisor is a state machine whose state is the step that is due.
//! The program around it performs that step and reports how it went;
//! [`Step::after`] answers with the step that is due next. The order never
//! varies: it is [`plan`], cut short only by a fatal failure.

use crate::event_loop;
use crate::event_loop::Received;
use crate::lifecycle::TaskState;
use crate::watcher;
use crate::watcher::FileSystemEvent;
use vstd::prelude::*;

verus! {

/// One of the three supervised tasks, in the order in which they are started
/// and, later, taken down.
#[derive(Clone, Copy, PartialEq, Eq, Debug, Structural)]
pub enum Task {
    Metrics,
    EventLoop,
    Watcher,
}

impl Task {
    /// The task's place in the fixed order: metrics, event loop, watcher.
    pub open spec fn order(self) -> nat {
        match self {
            Task::Metrics => 0,
            Task::EventLoop => 1,
            Task::Watcher => 2,
        }
    }
}

/// How a step went.
#[derive(Clone, Copy, PartialEq, Eq, Debug, Structural)]
pub enum Outcome {
    Done,
    Failed,
}

/// A failure that ends the process at once.
#[derive(Clone, Copy, PartialEq, Eq, Debug, Structural)]
pub enum Fault {
    /// The task runtime could not be built.
    Runtime,
    /// The log sink could not be set up.
    Logging,
    /// A task could not be started.
    Spawn(Task),
    /// The directory watch could not be registered.
    Watch,
    /// The interrupt notification could not be listened for.
    Interrupt,
    /// A task's shutdown signal found nobody to receive it.
    Signal(Task),
}

/// What the supervisor asks for next.
#[derive(Clone, Copy, PartialEq, Eq, Debug, Structural)]
pub enum Step {
    /// Build the shared multi-threaded runtime.
    BuildRuntime,
    /// Set up the log sink.
    InitLogging,
    /// Log that the agent has started.
    LogStart,
    /// Create the task's channel and start the task.
    Spawn(Task),
    /// Register the recursive watch on the watched directory.
    RegisterWatch,
    /// Wait for the operator's interrupt.
    AwaitInterrupt,
    /// Fire the task's shutdown signal.
    Signal(Task),
    /// Wait until the task has completed.
    Join(Task),
    /// Flush buffered log output.
    FlushLog,
    /// Log that the agent has stopped.
    LogStop,
    /// Leave with status 0. Nothing follows.
    Exit,
    /// Abort the process. Nothing follows.
    Abort(Fault),
}

/// Every step of an undisturbed run, in order.
pub open spec fn plan() -> Seq<Step> {
    seq![
        Step::BuildRuntime,
        Step::InitLogging,
        Step::LogStart,
        Step::Spawn(Task::Metrics),
        Step::Spawn(Task::EventLoop),
        Step::RegisterWatch,
        Step::Spawn(Task::Watcher),
        Step::AwaitInterrupt,
        Step::Signal(Task::Metrics),
        Step::Join(Task::Metrics),
        Step::Signal(Task::EventLoop),
        Step::Join(Task::EventLoop),
        Step::Signal(Task::Watcher),
        Step::Join(Task::Watcher),
        Step::FlushLog,
        Step::LogStop,
        Step::Exit,
    ]
}

impl Step {
    /// Whether nothing follows this step.
    pub open spec fn is_final(self) -> bool {
        self == Step::Exit || self is Abort
    }

    /// The fault that a failure of this step amounts to, if it is one. The
    /// supervisor only observes that a task has completed, not how, and
    /// writing or flushing the log is not checked, so those steps have none.
    pub open spec fn fault(self) -> Option<Fault> {
        match self {
            Step::BuildRuntime => Some(Fault::Runtime),
            Step::InitLogging => Some(Fault::Logging),
            Step::Spawn(task) => Some(Fault::Spawn(task)),
            Step::RegisterWatch => Some(Fault::Watch),
            Step::AwaitInterrupt => Some(Fault::Interrupt),
            Step::Signal(task) => Some(Fault::Signal(task)),
            _ => None,
        }
    }

    /// Where this step stands in [`plan`]; for an abort, which is no part of
    /// it, the plan's length.
    pub open spec fn position(self) -> int {
        match self {
            Step::BuildRuntime => 0,
            Step::InitLogging => 1,
            Step::LogStart => 2,
            Step::Spawn(Task::Metrics) => 3,
            Step::Spawn(Task::EventLoop) => 4,
            Step::RegisterWatch => 5,
            Step::Spawn(Task::Watcher) => 6,
            Step::AwaitInterrupt => 7,
            Step::Signal(task) => 8 + 2 * (task.order() as int),
            Step::Join(task) => 9 + 2 * (task.order() as int),
            Step::FlushLog => 14,
            Step::LogStop => 15,
            Step::Exit => 16,
            Step::Abort(_) => 17,
        }
    }

    /// The step that is due once this one went as `outcome` says: the same
    /// step if this one is final, an abort if it failed fatally, else the
    /// next step of the plan.
    pub open spec fn successor(self, outcome: Outcome) -> Step {
        if self.is_final() {
            self
        } else if outcome == Outcome::Failed && self.fault() is Some {
            Step::Abort(self.fault()->0)
        } else {
            plan()[self.position() + 1]
        }
    }

    /// The step with which every run begins.
    pub fn first() -> (step: Step)
        ensures
            step == plan()[0],
    {
        Step::BuildRuntime
    }

    /// Whether the run is over with this step.
    pub fn is_last(self) -> (last: bool)
        ensures
            last == self.is_final(),
    {
        match self {
            Step::Exit => true,
            Step::Abort(_) => true,
            _ => false,
        }
    }

    /// The status with which the process leaves: 0 at the regular exit, none
    /// for any other step.
    pub fn exit_status(self) -> (status: Option<i32>)
        ensures
            status == (if self == Step::Exit { Some(0i32) } else { None }),
    {
        match self {
            Step::Exit => Some(0),
            _ => None,
        }
    }

    /// The step that is due after this one.
    pub fn after(self, outcome: Outcome) -> (next: Step)
        ensures
            next == self.successor(outcome),
    {
        let failed = match outcome {
            Outcome::Failed => true,
            Outcome::Done => false,
        };
        match self {
            Step::BuildRuntime => if failed {
                Step::Abort(Fault::Runtime)
            } else {
                Step::InitLogging
            },
            Step::InitLogging => if failed {
                Step::Abort(Fault::Logging)
            } else {
                Step::LogStart
            },
            Step::LogStart => Step::Spawn(Task::Metrics),
            Step::Spawn(task) => if failed {
                Step::Abort(Fault::Spawn(task))
            } else {
                match task {
                    Task::Metrics => Step::Spawn(Task::EventLoop),
                    Task::EventLoop => Step::RegisterWatch,
                    Task::Watcher => Step::AwaitInterrupt,
                }
            },
            Step::RegisterWatch => if failed {
                Step::Abort(Fault::Watch)
            } else {
                Step::Spawn(Task::Watcher)
            },
            Step::AwaitInterrupt => if failed {
                Step::Abort(Fault::Interrupt)
            } else {
                Step::Signal(Task::Metrics)
            },
            Step::Signal(task) => if failed {
                Step::Abort(Fault::Signal(task))
            } else {
                Step::Join(task)
            },
            Step::Join(task) => match task {
                Task::Metrics => Step::Signal(Task::EventLoop),
                Task::EventLoop => Step::Signal(Task::Watcher),
                Task::Watcher => Step::FlushLog,
            },
            Step::FlushLog => Step::LogStop,
            Step::LogStop => Step::Exit,
            Step::Exit => Step::Exit,
            Step::Abort(fault) => Step::Abort(fault),
        }
    }
}

impl Fault {
    /// The words that go with a fault whose cause says too little by itself.
    pub open spec fn diagnostic_text(self) -> Option<Seq<char>> {
        match self {
            Fault::Runtime => Some("runtime error"@),
            Fault::Logging => Some("log init error"@),
            Fault::Interrupt => Some("failed to listen for event"@),
            _ => None,
        }
    }

    /// The message to abort with, where the fault has one of its own; for
    /// the others the underlying error is the message.
    pub fn diagnostic(self) -> (message: Option<String>)
        ensures
            message.deep_view() == self.diagnostic_text(),
    {
        match self {
            Fault::Runtime => Some("runtime error".to_owned()),
            Fault::Logging => Some("log init error".to_owned()),
            Fault::Interrupt => Some("failed to listen for event".to_owned()),
            _ => None,
        }
    }
}

impl Step {
    /// What a logging step writes.
    pub open spec fn log_text(self) -> Option<Seq<char>> {
        match self {
            Step::LogStart => Some("app start"@),
            Step::LogStop => Some("app stop"@),
            _ => None,
        }
    }

    /// The line that this step writes to the log, if it is a logging step.
    pub fn log_line(self) -> (line: Option<String>)
        ensures
            line.deep_view() == self.log_text(),
    {
        match self {
            Step::LogStart => Some("app start".to_owned()),
            Step::LogStop => Some("app stop".to_owned()),
            _ => None,
        }
    }
}

/// How a task's shutdown signal is fired.
#[derive(Debug)]
pub enum ShutdownRequest {
    /// Fire the one-shot signal that the metrics endpoint waits on.
    Fire,
    /// Put this message into the event loop's queue.
    Enqueue(String),
    /// Send this event down the watcher's channel.
    Notify(FileSystemEvent),
}

/// The shutdown signal of a task. For the event loop and the watcher it is
/// the sentinel that stops them when they take it while running.
pub fn shutdown_request(task: Task) -> (request: ShutdownRequest)
    ensures
        task == Task::Metrics ==> request is Fire,
        task == Task::EventLoop ==> (request matches ShutdownRequest::Enqueue(message)
            && message@ == event_loop::sentinel_text() && event_loop::state_after(
            TaskState::Running,
            Received::Message(message@),
        ) == TaskState::Stopping),
        task == Task::Watcher ==> (request matches ShutdownRequest::Notify(event) && event
            == FileSystemEvent::Other && watcher::state_after(TaskState::Running, event)
            == TaskState::Stopping),
{
    match task {
        Task::Metrics => ShutdownRequest::Fire,
        Task::EventLoop => ShutdownRequest::Enqueue(event_loop::shutdown_message()),
        Task::Watcher => ShutdownRequest::Notify(watcher::shutdown_event()),
    }
}

/// The steps of a run in which the steps went as `outcomes` say, one outcome
/// for each step performed. The run begins with the first step of the plan,
/// and after a final step no further outcome is looked at.
pub open spec fn steps_taken(outcomes: Seq<Outcome>) -> Seq<Step>
    decreases outcomes.len(),
{
    if outcomes.len() == 0 {
        seq![plan()[0]]
    } else {
        let before = steps_taken(outcomes.drop_last());
        if before.last().is_final() {
            before
        } else {
            before.push(before.last().successor(outcomes.last()))
        }
    }
}

/// Runs the supervisor against a list of outcomes and returns every step
/// that became due, the first one included.
pub fn run(outcomes: &Vec<Outcome>) -> (steps: Vec<Step>)
    ensures
        steps@ == steps_taken(outcomes@),
{
    let mut steps: Vec<Step> = Vec::new();
    let mut current = Step::first();
    steps.push(current);
    let mut i: usize = 0;
    while i < outcomes.len()
        invariant
            i <= outcomes.len(),
            steps@ == steps_taken(outcomes@.take(i as int)),
            steps@.len() > 0,
            current == steps@.last(),
        decreases outcomes.len() - i,
    {
        proof {
            assert(outcomes@.take(i + 1).drop_last() == outcomes@.take(i as int));
        }
        if !current.is_last() {
            current = current.after(outcomes[i]);
            steps.push(current);
        }
        i += 1;
    }
    proof {
        assert(outcomes@.take(i as int) == outcomes@);
    }
    steps
}

/// The plan names every step but the aborts, each at its position and
/// therefore once.
pub proof fn law_plan_holds_each_step_once(step: Step)
    requires
        !(step is Abort),
    ensures
        0 <= step.position() < plan().len(),
        plan()[step.position()] == step,
        forall|i: int| 0 <= i < plan().len() && plan()[i] == step ==> i == step.position(),
{
}

/// Whatever the outcomes, a run walks the plan from its first step on,
/// leaving nothing out, and leaves the plan only by aborting, which ends it.
pub proof fn law_run_follows_plan(outcomes: Seq<Outcome>)
    ensures
        1 <= steps_taken(outcomes).len() <= plan().len(),
        steps_taken(outcomes).len() <= outcomes.len() + 1,
        forall|i: int|
            0 <= i < steps_taken(outcomes).len() - 1 ==> steps_taken(outcomes)[i] == plan()[i]
                && !plan()[i].is_final(),
        steps_taken(outcomes).last() is Abort || steps_taken(outcomes).last() == plan()[
            steps_taken(outcomes).len() - 1],
    decreases outcomes.len(),
{
    if outcomes.len() > 0 {
        law_run_follows_plan(outcomes.drop_last());
    }
}

/// A task's shutdown signal is fired at most once in a run.
pub proof fn law_signal_fires_once(outcomes: Seq<Outcome>, task: Task, i: int, j: int)
    requires
        0 <= i < steps_taken(outcomes).len(),
        0 <= j < steps_taken(outcomes).len(),
        steps_taken(outcomes)[i] == Step::Signal(task),
        steps_taken(outcomes)[j] == Step::Signal(task),
    ensures
        i == j,
{
    law_run_follows_plan(outcomes);
}

/// Teardown is sequential: when a task's shutdown signal is fired, the
/// interrupt has been received, and every task before it in the order has
/// been signalled and has completed.
pub proof fn law_teardown_is_sequential(
    outcomes: Seq<Outcome>,
    j: int,
    earlier: Task,
    later: Task,
)
    requires
        0 <= j < steps_taken(outcomes).len(),
        steps_taken(outcomes)[j] == Step::Signal(later),
        earlier.order() < later.order(),
    ensures
        Step::AwaitInterrupt.position() < Step::Signal(earlier).position() < Step::Join(
            earlier,
        ).position() < j,
        steps_taken(outcomes)[Step::AwaitInterrupt.position()] == Step::AwaitInterrupt,
        steps_taken(outcomes)[Step::Signal(earlier).position()] == Step::Signal(earlier),
        steps_taken(outcomes)[Step::Join(earlier).position()] == Step::Join(earlier),
{
    law_run_follows_plan(outcomes);
}

/// A task is waited for directly after its shutdown signal was fired, and
/// only then.
pub proof fn law_join_follows_signal(outcomes: Seq<Outcome>, j: int, task: Task)
    requires
        0 <= j < steps_taken(outcomes).len(),
        steps_taken(outcomes)[j] == Step::Join(task),
    ensures
        j >= 1,
        steps_taken(outcomes)[j - 1] == Step::Signal(task),
{
    law_run_follows_plan(outcomes);
}

/// The run reaches its regular exit only at the end of the whole plan: all
/// three tasks were started, signalled and waited for, and the log flushed.
pub proof fn law_exit_ends_the_whole_plan(outcomes: Seq<Outcome>)
    requires
        steps_taken(outcomes).last() == Step::Exit,
    ensures
        steps_taken(outcomes) == plan(),
{
    law_run_follows_plan(outcomes);
    assert(steps_taken(outcomes) =~= plan());
}

/// As long as no step fails that can fail fatally, the run is the plan as
/// far as the outcomes reach.
pub proof fn law_undisturbed_run(outcomes: Seq<Outcome>)
    requires
        forall|i: int|
            0 <= i < outcomes.len() && i < plan().len() && outcomes[i] == Outcome::Failed
                ==> plan()[i].fault() is None,
    ensures
        outcomes.len() + 1 <= plan().len() ==> steps_taken(outcomes) == plan().take(
            outcomes.len() as int + 1,
        ),
        outcomes.len() + 1 >= plan().len() ==> steps_taken(outcomes) == plan(),
    decreases outcomes.len(),
{
    if outcomes.len() > 0 {
        law_undisturbed_run(outcomes.drop_last());
        law_run_follows_plan(outcomes.drop_last());
        let before = steps_taken(outcomes.drop_last());
        if outcomes.len() + 1 <= plan().len() {
            assert(before == plan().take(outcomes.len() as int));
            assert(before.last() == plan()[outcomes.len() - 1]);
            assert(steps_taken(outcomes) =~= plan().take(outcomes.len() as int + 1));
        }
    } else {
        assert(steps_taken(outcomes) =~= plan().take(1));
    }
}

/// The first failure of a step that can fail fatally ends the run with the
/// abort for that step: nothing is retried and nothing else is begun.
pub proof fn law_fatal_failure_aborts(outcomes: Seq<Outcome>, k: int)
    requires
        0 <= k < outcomes.len(),
        k < plan().len(),
        outcomes[k] == Outcome::Failed,
        plan()[k].fault() is Some,
        forall|i: int| 0 <= i < k && outcomes[i] == Outcome::Failed ==> plan()[i].fault() is None,
    ensures
        steps_taken(outcomes) == plan().take(k + 1).push(Step::Abort(plan()[k].fault()->0)),
    decreases outcomes.len(),
{
    if outcomes.len() == k + 1 {
        law_undisturbed_run(outcomes.drop_last());
        assert(steps_taken(outcomes.drop_last()) == plan().take(k + 1));
    } else {
        assert(outcomes.drop_last()[k] == outcomes[k]);
        law_fatal_failure_aborts(outcomes.drop_last(), k);
    }
}

} // verus!
