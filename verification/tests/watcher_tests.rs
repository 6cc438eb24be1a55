use agent_supervisor::lifecycle::TaskState;
use agent_supervisor::watcher::{
    classify, file_watch, on_event, shutdown_event, watch_request, CreateKind, FileSystemEvent,
    StopCause,
};
use notify::event::{AccessKind, DataChange, ModifyKind, RemoveKind};
use notify::{Event, EventKind};

#[test]
fn created_file_then_sentinel() {
    let run = file_watch(&vec![
        FileSystemEvent::Create(CreateKind::File),
        FileSystemEvent::Other,
    ]);
    assert_eq!(run.log, vec!["file_watcher: create file", "file_watcher shutdown"]);
    assert_eq!(run.consumed, 2);
    assert_eq!(run.stopped_by, StopCause::Sentinel);
}

#[test]
fn watcher_ends_when_the_channel_closes() {
    let run = file_watch(&vec![
        FileSystemEvent::Create(CreateKind::File),
        FileSystemEvent::Modify,
    ]);
    assert_eq!(run.log, vec!["file_watcher: create file"]);
    assert_eq!(run.consumed, 2);
    assert_eq!(run.stopped_by, StopCause::Closed);
}

#[test]
fn watcher_on_a_closed_empty_channel() {
    let run = file_watch(&vec![]);
    assert!(run.log.is_empty());
    assert_eq!(run.consumed, 0);
    assert_eq!(run.stopped_by, StopCause::Closed);
}

#[test]
fn every_created_file_before_the_sentinel_is_logged() {
    let run = file_watch(&vec![
        FileSystemEvent::Create(CreateKind::File),
        FileSystemEvent::Modify,
        FileSystemEvent::Create(CreateKind::File),
        FileSystemEvent::Remove,
        FileSystemEvent::Create(CreateKind::File),
        FileSystemEvent::Other,
    ]);
    assert_eq!(
        run.log,
        vec![
            "file_watcher: create file",
            "file_watcher: create file",
            "file_watcher: create file",
            "file_watcher shutdown",
        ]
    );
    assert_eq!(run.consumed, 6);
    assert_eq!(run.stopped_by, StopCause::Sentinel);
}

#[test]
fn watcher_takes_nothing_after_the_sentinel() {
    let run = file_watch(&vec![
        FileSystemEvent::Other,
        FileSystemEvent::Create(CreateKind::File),
        FileSystemEvent::Error,
        FileSystemEvent::Other,
    ]);
    assert_eq!(run.log, vec!["file_watcher shutdown"]);
    assert_eq!(run.consumed, 1);
    assert_eq!(run.stopped_by, StopCause::Sentinel);
}

#[test]
fn watcher_error_is_logged_and_the_watcher_goes_on() {
    let run = file_watch(&vec![
        FileSystemEvent::Error,
        FileSystemEvent::Create(CreateKind::File),
        FileSystemEvent::Error,
        FileSystemEvent::Other,
    ]);
    assert_eq!(
        run.log,
        vec![
            "file_watcher error",
            "file_watcher: create file",
            "file_watcher error",
            "file_watcher shutdown",
        ]
    );
    assert_eq!(run.consumed, 4);
}

#[test]
fn other_kinds_are_ignored() {
    let ignored = vec![
        FileSystemEvent::Any,
        FileSystemEvent::Access,
        FileSystemEvent::Modify,
        FileSystemEvent::Remove,
    ];
    for event in &ignored {
        let step = on_event(TaskState::Running, *event);
        assert_eq!(step.state, TaskState::Running);
        assert_eq!(step.line, None);
    }
    let run = file_watch(&ignored);
    assert!(run.log.is_empty());
    assert_eq!(run.consumed, 4);
    assert_eq!(run.stopped_by, StopCause::Closed);
}

#[test]
fn every_creation_is_logged_whatever_was_created() {
    let created = vec![
        FileSystemEvent::Create(CreateKind::Any),
        FileSystemEvent::Create(CreateKind::File),
        FileSystemEvent::Create(CreateKind::Folder),
        FileSystemEvent::Create(CreateKind::Other),
    ];
    for event in &created {
        let step = on_event(TaskState::Running, *event);
        assert_eq!(step.state, TaskState::Running);
        assert_eq!(step.line, Some("file_watcher: create file".to_string()));
    }
    let run = file_watch(&created);
    assert_eq!(run.log, vec!["file_watcher: create file"; 4]);
    assert_eq!(run.consumed, 4);
    assert_eq!(run.stopped_by, StopCause::Closed);
}

#[test]
fn created_folder_then_sentinel() {
    let run = file_watch(&vec![
        FileSystemEvent::Create(CreateKind::Folder),
        FileSystemEvent::Other,
    ]);
    assert_eq!(run.log, vec!["file_watcher: create file", "file_watcher shutdown"]);
    assert_eq!(run.consumed, 2);
    assert_eq!(run.stopped_by, StopCause::Sentinel);
}

#[test]
fn creations_are_counted_among_other_events() {
    let events = vec![
        FileSystemEvent::Modify,
        FileSystemEvent::Create(CreateKind::Folder),
        FileSystemEvent::Error,
        FileSystemEvent::Create(CreateKind::File),
        FileSystemEvent::Remove,
        FileSystemEvent::Create(CreateKind::Any),
        FileSystemEvent::Other,
        FileSystemEvent::Create(CreateKind::File),
    ];
    let run = file_watch(&events);
    let creations = run.log.iter().filter(|line| *line == "file_watcher: create file").count();
    assert_eq!(creations, 3);
    assert_eq!(
        run.log,
        vec![
            "file_watcher: create file",
            "file_watcher error",
            "file_watcher: create file",
            "file_watcher: create file",
            "file_watcher shutdown",
        ]
    );
    assert_eq!(run.consumed, 7);
}

#[test]
fn created_folder_from_the_backend_is_logged() {
    let event = Event::new(EventKind::Create(notify::event::CreateKind::Folder));
    let step = on_event(TaskState::Running, classify(&Ok(event)));
    assert_eq!(step.state, TaskState::Running);
    assert_eq!(step.line, Some("file_watcher: create file".to_string()));
}

#[test]
fn one_event_at_a_time() {
    let created = on_event(TaskState::Running, FileSystemEvent::Create(CreateKind::File));
    assert_eq!(created.state, TaskState::Running);
    assert_eq!(created.line, Some("file_watcher: create file".to_string()));
    let failed = on_event(TaskState::Running, FileSystemEvent::Error);
    assert_eq!(failed.state, TaskState::Running);
    assert_eq!(failed.line, Some("file_watcher error".to_string()));
    let stop = on_event(TaskState::Running, FileSystemEvent::Other);
    assert_eq!(stop.state, TaskState::Stopping);
    assert_eq!(stop.line, Some("file_watcher shutdown".to_string()));
}

#[test]
fn watcher_that_is_not_running_takes_nothing() {
    for state in [TaskState::Stopping, TaskState::Stopped] {
        for event in [
            FileSystemEvent::Create(CreateKind::File),
            FileSystemEvent::Other,
            FileSystemEvent::Error,
            FileSystemEvent::Modify,
        ] {
            let step = on_event(state, event);
            assert_eq!(step.state, state);
            assert_eq!(step.line, None);
        }
    }
}

#[test]
fn sentinel_event_is_other() {
    assert_eq!(shutdown_event(), FileSystemEvent::Other);
    assert_eq!(on_event(TaskState::Running, shutdown_event()).state, TaskState::Stopping);
}

#[test]
fn watched_directory_is_fixed_and_recursive() {
    let request = watch_request();
    assert_eq!(request.path, "/var/log/neon");
    assert!(request.recursive);
}

#[test]
fn backend_events_are_classified_by_kind() {
    let cases = vec![
        (EventKind::Any, FileSystemEvent::Any),
        (EventKind::Access(AccessKind::Read), FileSystemEvent::Access),
        (
            EventKind::Create(notify::event::CreateKind::Any),
            FileSystemEvent::Create(CreateKind::Any),
        ),
        (
            EventKind::Create(notify::event::CreateKind::File),
            FileSystemEvent::Create(CreateKind::File),
        ),
        (
            EventKind::Create(notify::event::CreateKind::Folder),
            FileSystemEvent::Create(CreateKind::Folder),
        ),
        (
            EventKind::Create(notify::event::CreateKind::Other),
            FileSystemEvent::Create(CreateKind::Other),
        ),
        (EventKind::Modify(ModifyKind::Data(DataChange::Content)), FileSystemEvent::Modify),
        (EventKind::Remove(RemoveKind::File), FileSystemEvent::Remove),
        (EventKind::Other, FileSystemEvent::Other),
    ];
    for (kind, expected) in cases {
        assert_eq!(classify(&Ok(Event::new(kind))), expected);
    }
}

#[test]
fn backend_event_with_paths_is_classified_by_kind() {
    let event = Event::new(EventKind::Create(notify::event::CreateKind::File))
        .add_path("/var/log/neon/new.log".into());
    assert_eq!(classify(&Ok(event)), FileSystemEvent::Create(CreateKind::File));
}

#[test]
fn backend_error_is_an_error_event() {
    let error = notify::Error::generic("backend gone");
    assert_eq!(classify(&Err(error)), FileSystemEvent::Error);
    let missing = notify::Error::path_not_found();
    assert_eq!(classify(&Err(missing)), FileSystemEvent::Error);
}

#[test]
fn watcher_over_a_real_channel() {
    let (tx, rx) = std::sync::mpsc::channel::<notify::Result<Event>>();
    tx.send(Ok(Event::new(EventKind::Create(notify::event::CreateKind::File)))).unwrap();
    tx.send(Err(notify::Error::generic("lost"))).unwrap();
    tx.send(Ok(Event::new(EventKind::Remove(RemoveKind::Any)))).unwrap();
    tx.send(Ok(Event::new(EventKind::Other))).unwrap();
    tx.send(Ok(Event::new(EventKind::Create(notify::event::CreateKind::File)))).unwrap();
    let mut state = TaskState::Running;
    let mut log = Vec::new();
    for notification in &rx {
        let step = on_event(state, classify(&notification));
        state = step.state;
        log.extend(step.line);
        if !state.is_running() {
            break;
        }
    }
    assert_eq!(
        log,
        vec!["file_watcher: create file", "file_watcher error", "file_watcher shutdown"]
    );
    assert_eq!(state.returned(), TaskState::Stopped);
    // What came after the sentinel is still in the channel.
    assert!(rx.try_recv().is_ok());

    let events: Vec<FileSystemEvent> = vec![
        classify(&Ok(Event::new(EventKind::Create(notify::event::CreateKind::File)))),
        classify(&Err(notify::Error::generic("lost"))),
        classify(&Ok(Event::new(EventKind::Remove(RemoveKind::Any)))),
        classify(&Ok(Event::new(EventKind::Other))),
        classify(&Ok(Event::new(EventKind::Create(notify::event::CreateKind::File)))),
    ];
    let run = file_watch(&events);
    assert_eq!(run.log, log);
    assert_eq!(run.consumed, 4);
    assert_eq!(run.stopped_by, StopCause::Sentinel);
}
