//! The directory watcher: which notifications it logs, which it ignores, and
//! on which it stops.
//!
//! The filesystem backend is `notify`. Its notifications are classified once,
//! into [`FileSystemEvent`], and everything else here works on that type.

use crate::lifecycle::{log_with, record, TaskState, TaskStep, TaskTrace};
use notify::EventKind;
use vstd::prelude::*;

verus! {

/// `notify::Event`, taken as it is.
#[verifier::external_type_specification]
#[verifier::external_body]
pub struct ExEvent(notify::Event);

/// `notify::Error`, taken as it is.
#[verifier::external_type_specification]
#[verifier::external_body]
pub struct ExError(notify::Error);

/// What was created.
#[derive(Clone, Copy, PartialEq, Eq, Debug, Structural)]
pub enum CreateKind {
    Any,
    File,
    Folder,
    Other,
}

/// A notification from the filesystem backend, by its kind.
///
/// `Other` carries no filesystem change: it is the sentinel that asks the
/// watcher to stop. `Error` stands for a notification that the backend could
/// not deliver as an event.
#[derive(Clone, Copy, PartialEq, Eq, Debug, Structural)]
pub enum FileSystemEvent {
    Any,
    Access,
    Create(CreateKind),
    Modify,
    Remove,
    Other,
    Error,
}

/// The kind of an event of the backend: what its field `kind` holds, and
/// for a creation what was created.
pub uninterp spec fn kind_of(raw: notify::Event) -> FileSystemEvent;

/// Reads the field `kind` of a `notify::Event` and tells its variants apart,
/// and for a creation the variants of `notify::event::CreateKind`. An event
/// is never an error.
#[verifier::external_body]
fn event_kind(raw: &notify::Event) -> (kind: FileSystemEvent)
    ensures
        kind == kind_of(*raw),
        kind != FileSystemEvent::Error,
{
    match raw.kind {
        EventKind::Any => FileSystemEvent::Any,
        EventKind::Access(_) => FileSystemEvent::Access,
        EventKind::Create(notify::event::CreateKind::Any) => FileSystemEvent::Create(CreateKind::Any),
        EventKind::Create(notify::event::CreateKind::File) => FileSystemEvent::Create(CreateKind::File),
        EventKind::Create(notify::event::CreateKind::Folder) => FileSystemEvent::Create(CreateKind::Folder),
        EventKind::Create(notify::event::CreateKind::Other) => FileSystemEvent::Create(CreateKind::Other),
        EventKind::Modify(_) => FileSystemEvent::Modify,
        EventKind::Remove(_) => FileSystemEvent::Remove,
        EventKind::Other => FileSystemEvent::Other,
    }
}

/// Classifies what the backend delivered: an event by its kind, an error as
/// [`FileSystemEvent::Error`].
pub fn classify(notification: &Result<notify::Event, notify::Error>) -> (event: FileSystemEvent)
    ensures
        event == (match *notification {
            Ok(raw) => kind_of(raw),
            Err(_) => FileSystemEvent::Error,
        }),
        notification is Ok ==> event != FileSystemEvent::Error,
{
    match notification {
        Ok(raw) => event_kind(raw),
        Err(_) => FileSystemEvent::Error,
    }
}

/// The event on which the watcher stops.
pub open spec fn is_sentinel(event: FileSystemEvent) -> bool {
    event == FileSystemEvent::Other
}

/// The line that a running watcher logs on an event: one for a creation,
/// whatever was created, one for the sentinel, one for an error, none for
/// anything else.
pub open spec fn line_for(event: FileSystemEvent) -> Option<Seq<char>> {
    match event {
        FileSystemEvent::Create(_) => Some("file_watcher: create file"@),
        FileSystemEvent::Other => Some("file_watcher shutdown"@),
        FileSystemEvent::Error => Some("file_watcher error"@),
        _ => None,
    }
}

/// The sentinel that asks the watcher to stop.
pub fn shutdown_event() -> (event: FileSystemEvent)
    ensures
        is_sentinel(event),
{
    FileSystemEvent::Other
}

/// The directory that is watched.
pub open spec fn watched_directory() -> Seq<char> {
    "/var/log/neon"@
}

/// A watch to register with the filesystem backend.
#[derive(Debug)]
pub struct WatchRequest {
    /// The directory to watch.
    pub path: String,
    /// Whether everything below it is watched too.
    pub recursive: bool,
}

/// The one watch of the agent: the fixed directory, recursively.
pub fn watch_request() -> (request: WatchRequest)
    ensures
        request.path@ == watched_directory(),
        request.recursive,
{
    WatchRequest { path: "/var/log/neon".to_owned(), recursive: true }
}

/// The watcher's state after an event: stopping once a running watcher has
/// seen the sentinel, else as before.
pub open spec fn state_after(state: TaskState, event: FileSystemEvent) -> TaskState {
    if state == TaskState::Running && is_sentinel(event) {
        TaskState::Stopping
    } else {
        state
    }
}

/// The line logged on an event: that of [`line_for`] while the watcher
/// runs, none afterwards.
pub open spec fn line_logged(state: TaskState, event: FileSystemEvent) -> Option<Seq<char>> {
    if state == TaskState::Running {
        line_for(event)
    } else {
        None
    }
}

/// Takes one event. A running watcher logs what [`line_for`] says and goes
/// on, unless the event is the sentinel: then it is stopping. A watcher that
/// is no longer running takes nothing: its state stays and nothing is
/// logged.
pub fn on_event(state: TaskState, event: FileSystemEvent) -> (step: TaskStep)
    ensures
        step.state == state_after(state, event),
        step.line.deep_view() == line_logged(state, event),
{
    if !state.is_running() {
        return TaskStep { state, line: None };
    }
    match event {
        FileSystemEvent::Create(_) => TaskStep {
            state: TaskState::Running,
            line: Some("file_watcher: create file".to_owned()),
        },
        FileSystemEvent::Other => TaskStep {
            state: TaskState::Stopping,
            line: Some("file_watcher shutdown".to_owned()),
        },
        FileSystemEvent::Error => TaskStep {
            state: TaskState::Running,
            line: Some("file_watcher error".to_owned()),
        },
        _ => TaskStep { state: TaskState::Running, line: None },
    }
}

/// The watcher after the given events, fed to it one by one from the start.
pub open spec fn watch_trace(events: Seq<FileSystemEvent>) -> TaskTrace
    decreases events.len(),
{
    if events.len() == 0 {
        TaskTrace { state: TaskState::Running, consumed: 0, log: Seq::empty() }
    } else {
        let before = watch_trace(events.drop_last());
        TaskTrace {
            state: state_after(before.state, events.last()),
            consumed: if before.state == TaskState::Running {
                before.consumed + 1
            } else {
                before.consumed
            },
            log: log_with(before.log, line_logged(before.state, events.last())),
        }
    }
}

/// Why the watcher's function returned.
#[derive(Clone, Copy, PartialEq, Eq, Debug, Structural)]
pub enum StopCause {
    /// It saw the sentinel.
    Sentinel,
    /// The channel was closed.
    Closed,
}

/// One whole run of the watcher.
#[derive(Debug)]
pub struct WatchRun {
    /// How many events were taken from the channel.
    pub consumed: usize,
    /// Why the run ended.
    pub stopped_by: StopCause,
    /// The lines logged, in order.
    pub log: Vec<String>,
}

proof fn lemma_stopped_watcher_takes_nothing(events: Seq<FileSystemEvent>, taken: int)
    requires
        0 <= taken <= events.len(),
        watch_trace(events.take(taken)).state != TaskState::Running,
    ensures
        watch_trace(events) == watch_trace(events.take(taken)),
    decreases events.len() - taken,
{
    if taken < events.len() {
        assert(events.take(taken + 1).drop_last() == events.take(taken));
        lemma_stopped_watcher_takes_nothing(events, taken + 1);
    } else {
        assert(events.take(taken) == events);
    }
}

/// Runs the watcher over everything that its channel delivers before it is
/// closed. The watcher takes the events in order until it has seen the
/// sentinel or the channel is exhausted, and then returns.
pub fn file_watch(events: &Vec<FileSystemEvent>) -> (run: WatchRun)
    ensures
        run.consumed == watch_trace(events@).consumed,
        run.log.deep_view() == watch_trace(events@).log,
        run.stopped_by == (if watch_trace(events@).state == TaskState::Running {
            StopCause::Closed
        } else {
            StopCause::Sentinel
        }),
{
    let mut state = TaskState::Running;
    let mut log: Vec<String> = Vec::new();
    let mut taken: usize = 0;
    assert(log.deep_view() =~= Seq::<Seq<char>>::empty());
    while taken < events.len() && state.is_running()
        invariant
            taken <= events.len(),
            state == watch_trace(events@.take(taken as int)).state,
            taken == watch_trace(events@.take(taken as int)).consumed,
            log.deep_view() == watch_trace(events@.take(taken as int)).log,
        decreases events.len() - taken,
    {
        proof {
            assert(events@.take(taken + 1).drop_last() == events@.take(taken as int));
        }
        let step = on_event(state, events[taken]);
        state = step.state;
        record(&mut log, step.line);
        taken += 1;
    }
    proof {
        if taken < events.len() {
            lemma_stopped_watcher_takes_nothing(events@, taken as int);
        } else {
            assert(events@.take(taken as int) == events@);
        }
    }
    let stopped_by = if state.is_running() {
        StopCause::Closed
    } else {
        StopCause::Sentinel
    };
    WatchRun { consumed: taken, stopped_by, log }
}

/// The lines that a running watcher logs on the given events: the line of
/// each event that has one, in order.
pub open spec fn lines_of(events: Seq<FileSystemEvent>) -> Seq<Seq<char>> {
    events.filter_map(|event: FileSystemEvent| line_for(event))
}

/// As long as no sentinel comes, the watcher keeps running: it takes every
/// event and logs the line of each that has one.
pub proof fn law_watcher_runs_without_sentinel(events: Seq<FileSystemEvent>)
    requires
        forall|i: int| 0 <= i < events.len() ==> !is_sentinel(events[i]),
    ensures
        watch_trace(events) == (TaskTrace {
            state: TaskState::Running,
            consumed: events.len(),
            log: lines_of(events),
        }),
    decreases events.len(),
{
    if events.len() > 0 {
        law_watcher_runs_without_sentinel(events.drop_last());
        let earlier = lines_of(events.drop_last());
        match line_for(events.last()) {
            Some(line) => assert(earlier + seq![line] =~= earlier.push(line)),
            None => {},
        }
    }
}

/// The watcher stops exactly at the first sentinel. Whatever came before it
/// was taken and logged, the sentinel is the last event taken and its line
/// the last line logged, and of what follows nothing is taken.
pub proof fn law_watcher_stops_at_sentinel(
    prior: Seq<FileSystemEvent>,
    later: Seq<FileSystemEvent>,
)
    requires
        forall|i: int| 0 <= i < prior.len() ==> !is_sentinel(prior[i]),
    ensures
        watch_trace(prior.push(FileSystemEvent::Other) + later) == (TaskTrace {
            state: TaskState::Stopping,
            consumed: prior.len() + 1,
            log: lines_of(prior).push("file_watcher shutdown"@),
        }),
{
    let events = prior.push(FileSystemEvent::Other) + later;
    let upto = prior.len() + 1;
    assert(events.take(upto as int) == prior.push(FileSystemEvent::Other));
    assert(prior.push(FileSystemEvent::Other).drop_last() == prior);
    law_watcher_runs_without_sentinel(prior);
    lemma_stopped_watcher_takes_nothing(events, upto as int);
}

/// There is no way back: an event never takes the watcher to an earlier
/// state, and only from running does it change the state at all.
pub proof fn law_watcher_never_resumes(state: TaskState, event: FileSystemEvent)
    ensures
        state.rank() <= state_after(state, event).rank(),
        state != TaskState::Running ==> state_after(state, event) == state,
{
}

/// Whether an event is a creation.
pub open spec fn is_creation() -> spec_fn(FileSystemEvent) -> bool {
    |event: FileSystemEvent| event is Create
}

/// Whether a line reports a creation.
pub open spec fn is_creation_line() -> spec_fn(Seq<char>) -> bool {
    |line: Seq<char>| line == "file_watcher: create file"@
}

/// A running watcher reports every creation, and nothing else as one: among
/// the lines it logs there are as many creation lines as there are creations
/// among the events.
pub proof fn law_every_creation_is_logged(events: Seq<FileSystemEvent>)
    ensures
        lines_of(events).filter(is_creation_line()).len() == events.filter(
            is_creation(),
        ).len(),
    decreases events.len(),
{
    if events.len() == 0 {
        events.lemma_filter_len(is_creation());
        lines_of(events).lemma_filter_len(is_creation_line());
    } else {
        let earlier = events.drop_last();
        law_every_creation_is_logged(earlier);
        assert(earlier.push(events.last()) == events);
        earlier.lemma_filter_len_push(is_creation(), events.last());
        match line_for(events.last()) {
            Some(line) => {
                assert(lines_of(earlier) + seq![line] =~= lines_of(earlier).push(line));
                lines_of(earlier).lemma_filter_len_push(is_creation_line(), line);
                assert(is_creation_line()(line) == is_creation()(events.last())) by {
                    reveal_strlit("file_watcher: create file");
                    reveal_strlit("file_watcher shutdown");
                    reveal_strlit("file_watcher error");
                    assert("file_watcher: create file"@.len() == 25);
                    assert("file_watcher shutdown"@.len() == 21);
                    assert("file_watcher error"@.len() == 18);
                }
            },
            None => {},
        }
    }
}

} // verus!
