//! The event loop: it takes text messages from a bounded queue, logs each,
//! and stops on the one message that is reserved for that.
//!
//! The queue is a `flume` channel that the program around the library owns.
//! Waiting on it is that program's part; what to do with what a receive
//! yields is decided here.

use crate::lifecycle::{log_with, record, TaskState, TaskStep, TaskTrace};
use vstd::prelude::*;

verus! {

/// `flume::RecvError`, taken as it is.
#[verifier::external_type_specification]
#[verifier::external_body]
pub struct ExRecvError(flume::RecvError);

/// How many messages the queue holds before a sender has to wait.
pub const QUEUE_CAPACITY: usize = 100;

/// What one receive on the queue yields.
#[derive(Debug)]
pub enum Delivery {
    /// A message.
    Message(String),
    /// No message: the receive failed because every sender is gone.
    Disconnected,
}

/// A [`Delivery`] as contracts speak of it: a message is its text.
pub enum Received {
    Message(Seq<char>),
    Disconnected,
}

impl View for Delivery {
    type V = Received;

    open spec fn view(&self) -> Received {
        match self {
            Delivery::Message(text) => Received::Message(text@),
            Delivery::Disconnected => Received::Disconnected,
        }
    }
}

impl DeepView for Delivery {
    type V = Received;

    open spec fn deep_view(&self) -> Received {
        self@
    }
}

/// The message that asks the loop to stop.
pub open spec fn sentinel_text() -> Seq<char> {
    "shutdown"@
}

/// The delivery on which the loop stops: the sentinel message.
pub open spec fn is_sentinel(delivery: Received) -> bool {
    delivery == Received::Message(sentinel_text())
}

/// The line logged when the loop starts.
pub open spec fn start_text() -> Seq<char> {
    "spawn infinity_loop"@
}

/// The line that a running loop logs on a delivery: the message behind a
/// fixed prefix, the sentinel like any other, or a fixed line where the
/// receive failed.
pub open spec fn line_for(delivery: Received) -> Seq<char> {
    match delivery {
        Received::Message(text) => "get message: "@ + text,
        Received::Disconnected => "get message error"@,
    }
}

/// The message that asks the loop to stop.
pub fn shutdown_message() -> (message: String)
    ensures
        message@ == sentinel_text(),
{
    "shutdown".to_owned()
}

/// The line to log when the loop starts.
pub fn start_line() -> (line: String)
    ensures
        line@ == start_text(),
{
    "spawn infinity_loop".to_owned()
}

/// Turns the result of a receive on the queue into a delivery.
pub fn received(result: Result<String, flume::RecvError>) -> (delivery: Delivery)
    ensures
        delivery@ == (match result {
            Ok(text) => Received::Message(text@),
            Err(_) => Received::Disconnected,
        }),
{
    match result {
        Ok(text) => Delivery::Message(text),
        Err(_) => Delivery::Disconnected,
    }
}

/// The loop's state after a delivery: stopping once a running loop has seen
/// the sentinel, else as before. A failed receive never stops the loop.
pub open spec fn state_after(state: TaskState, delivery: Received) -> TaskState {
    if state == TaskState::Running && is_sentinel(delivery) {
        TaskState::Stopping
    } else {
        state
    }
}

/// The line logged on a delivery: that of [`line_for`] while the loop runs,
/// none afterwards.
pub open spec fn line_logged(state: TaskState, delivery: Received) -> Option<Seq<char>> {
    if state == TaskState::Running {
        Some(line_for(delivery))
    } else {
        None
    }
}

/// Takes one delivery. A running loop logs it and goes on, unless it is the
/// sentinel: then the loop is stopping. A loop that is no longer running
/// takes nothing: its state stays and nothing is logged.
pub fn on_delivery(state: TaskState, delivery: &Delivery) -> (step: TaskStep)
    ensures
        step.state == state_after(state, delivery@),
        step.line.deep_view() == line_logged(state, delivery@),
{
    if !state.is_running() {
        return TaskStep { state, line: None };
    }
    match delivery {
        Delivery::Message(text) => {
            let line = "get message: ".to_owned().concat(text.as_str());
            let state = if *text == shutdown_message() {
                TaskState::Stopping
            } else {
                TaskState::Running
            };
            TaskStep { state, line: Some(line) }
        },
        Delivery::Disconnected => TaskStep {
            state: TaskState::Running,
            line: Some("get message error".to_owned()),
        },
    }
}

/// The loop after the given deliveries, fed to it one by one from its start,
/// at which it logs its first line.
pub open spec fn loop_trace(inbox: Seq<Received>) -> TaskTrace
    decreases inbox.len(),
{
    if inbox.len() == 0 {
        TaskTrace { state: TaskState::Running, consumed: 0, log: seq![start_text()] }
    } else {
        let before = loop_trace(inbox.drop_last());
        TaskTrace {
            state: state_after(before.state, inbox.last()),
            consumed: if before.state == TaskState::Running {
                before.consumed + 1
            } else {
                before.consumed
            },
            log: log_with(before.log, line_logged(before.state, inbox.last())),
        }
    }
}

/// The loop as far as a list of deliveries takes it.
#[derive(Debug)]
pub struct LoopRun {
    /// `Stopped` if the loop saw the sentinel and returned, `Running` if it
    /// took every delivery and waits for more.
    pub state: TaskState,
    /// How many deliveries were taken from the queue.
    pub consumed: usize,
    /// The lines logged, in order.
    pub log: Vec<String>,
}

proof fn lemma_stopped_loop_takes_nothing(inbox: Seq<Received>, taken: int)
    requires
        0 <= taken <= inbox.len(),
        loop_trace(inbox.take(taken)).state != TaskState::Running,
    ensures
        loop_trace(inbox) == loop_trace(inbox.take(taken)),
    decreases inbox.len() - taken,
{
    if taken < inbox.len() {
        assert(inbox.take(taken + 1).drop_last() == inbox.take(taken));
        lemma_stopped_loop_takes_nothing(inbox, taken + 1);
    } else {
        assert(inbox.take(taken) == inbox);
    }
}

/// Runs the loop over the deliveries that its queue yields, in order. The
/// loop logs its first line, then takes deliveries until it has seen the
/// sentinel, on which it returns. Without a sentinel it takes them all and
/// is still running at the end.
pub fn infinity_loop(inbox: &Vec<Delivery>) -> (run: LoopRun)
    ensures
        run.consumed == loop_trace(inbox.deep_view()).consumed,
        run.log.deep_view() == loop_trace(inbox.deep_view()).log,
        run.state == (if loop_trace(inbox.deep_view()).state == TaskState::Running {
            TaskState::Running
        } else {
            TaskState::Stopped
        }),
{
    let mut state = TaskState::Running;
    let mut log: Vec<String> = Vec::new();
    log.push(start_line());
    let mut taken: usize = 0;
    assert(log.deep_view() =~= seq![start_text()]);
    while taken < inbox.len() && state.is_running()
        invariant
            taken <= inbox.len(),
            state == loop_trace(inbox.deep_view().take(taken as int)).state,
            taken == loop_trace(inbox.deep_view().take(taken as int)).consumed,
            log.deep_view() == loop_trace(inbox.deep_view().take(taken as int)).log,
        decreases inbox.len() - taken,
    {
        proof {
            let all = inbox.deep_view();
            assert(all.take(taken + 1).drop_last() == all.take(taken as int));
            assert(all.take(taken + 1).last() == inbox[taken as int]@);
        }
        let step = on_delivery(state, &inbox[taken]);
        state = step.state;
        record(&mut log, step.line);
        taken += 1;
    }
    proof {
        if taken < inbox.len() {
            lemma_stopped_loop_takes_nothing(inbox.deep_view(), taken as int);
        } else {
            assert(inbox.deep_view().take(taken as int) == inbox.deep_view());
        }
    }
    let state = if state.is_running() {
        TaskState::Running
    } else {
        state.returned()
    };
    LoopRun { state, consumed: taken, log }
}

/// The lines that a running loop logs on the given deliveries: one for
/// each, in order.
pub open spec fn lines_of(inbox: Seq<Received>) -> Seq<Seq<char>> {
    inbox.map_values(|delivery: Received| line_for(delivery))
}

/// The loop never stops on anything but the sentinel: as long as none
/// comes, messages and failed receives alike, it keeps running, takes every
/// delivery and logs each.
pub proof fn law_loop_runs_without_sentinel(inbox: Seq<Received>)
    requires
        forall|i: int| 0 <= i < inbox.len() ==> !is_sentinel(inbox[i]),
    ensures
        loop_trace(inbox) == (TaskTrace {
            state: TaskState::Running,
            consumed: inbox.len(),
            log: seq![start_text()] + lines_of(inbox),
        }),
    decreases inbox.len(),
{
    if inbox.len() > 0 {
        law_loop_runs_without_sentinel(inbox.drop_last());
        assert(seq![start_text()] + lines_of(inbox) =~= (seq![start_text()] + lines_of(
            inbox.drop_last(),
        )).push(line_for(inbox.last())));
    } else {
        assert(seq![start_text()] + lines_of(inbox) =~= seq![start_text()]);
    }
}

/// The loop stops exactly at the first sentinel. Whatever came before it was
/// taken and logged, the sentinel is the last delivery taken and its line
/// the last line logged, and of what follows nothing is taken.
pub proof fn law_loop_stops_at_sentinel(prior: Seq<Received>, later: Seq<Received>)
    requires
        forall|i: int| 0 <= i < prior.len() ==> !is_sentinel(prior[i]),
    ensures
        loop_trace(prior.push(Received::Message(sentinel_text())) + later) == (TaskTrace {
            state: TaskState::Stopping,
            consumed: prior.len() + 1,
            log: (seq![start_text()] + lines_of(prior)).push("get message: "@ + sentinel_text()),
        }),
{
    let sentinel = Received::Message(sentinel_text());
    let inbox = prior.push(sentinel) + later;
    let upto = prior.len() + 1;
    assert(inbox.take(upto as int) == prior.push(sentinel));
    assert(prior.push(sentinel).drop_last() == prior);
    law_loop_runs_without_sentinel(prior);
    lemma_stopped_loop_takes_nothing(inbox, upto as int);
}

/// There is no way back: a delivery never takes the loop to an earlier
/// state, and only from running does it change the state at all.
pub proof fn law_loop_never_resumes(state: TaskState, delivery: Received)
    ensures
        state.rank() <= state_after(state, delivery).rank(),
        state != TaskState::Running ==> state_after(state, delivery) == state,
{
}

} // verus!
