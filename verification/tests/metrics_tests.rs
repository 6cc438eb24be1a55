use agent_supervisor::metrics::{
    content_type, handle_request, metrics_addr, on_serve_end, on_shutdown_signal, respond,
    start_prometheus, HandlerError, ListenAddr, ServerExit, ServerState, METRICS_PORT,
};
use prometheus_client::metrics::counter::Counter;
use std::sync::atomic::AtomicU64;
use std::sync::Arc;

const CONTENT_TYPE: &str = "application/openmetrics-text; version=1.0.0; charset=utf-8";

fn exposition(value: u64) -> String {
    format!(
        "# HELP event desc event.\n# TYPE event counter\nevent_total {}\n# EOF\n",
        value
    )
}

#[test]
fn endpoint_listens_on_every_interface_port_9090() {
    let addr = metrics_addr();
    assert_eq!(addr, ListenAddr { a: 0, b: 0, c: 0, d: 0, port: 9090 });
    assert_eq!(METRICS_PORT, 9090);
    let counter: Arc<Counter<u64, AtomicU64>> = Arc::new(Counter::default());
    assert_eq!(start_prometheus(counter).addr, addr);
}

#[test]
fn fresh_registry_exposes_the_event_counter_at_zero() {
    let counter: Arc<Counter<u64, AtomicU64>> = Arc::new(Counter::default());
    let server = start_prometheus(counter);
    let response = handle_request(&server.registry).unwrap();
    assert_eq!(response.status, 200);
    assert_eq!(response.content_type, CONTENT_TYPE);
    assert_eq!(response.body, exposition(0));
}

#[test]
fn repeated_requests_get_identical_bodies() {
    let counter: Arc<Counter<u64, AtomicU64>> = Arc::new(Counter::default());
    counter.inc_by(7);
    let server = start_prometheus(counter);
    let first = handle_request(&server.registry).unwrap();
    let second = handle_request(&server.registry).unwrap();
    let third = handle_request(&server.registry).unwrap();
    assert_eq!(first.body.as_bytes(), second.body.as_bytes());
    assert_eq!(second.body.as_bytes(), third.body.as_bytes());
    assert_eq!(first.body, exposition(7));
    assert_eq!(first.status, second.status);
    assert_eq!(first.content_type, second.content_type);
}

#[test]
fn request_after_an_increment_shows_the_new_value() {
    let counter: Arc<Counter<u64, AtomicU64>> = Arc::new(Counter::default());
    let server = start_prometheus(counter.clone());
    assert_eq!(handle_request(&server.registry).unwrap().body, exposition(0));
    counter.inc();
    assert_eq!(handle_request(&server.registry).unwrap().body, exposition(1));
    counter.inc();
    counter.inc_by(40);
    assert_eq!(handle_request(&server.registry).unwrap().body, exposition(42));
}

#[test]
fn body_ends_with_the_end_marker() {
    let counter: Arc<Counter<u64, AtomicU64>> = Arc::new(Counter::default());
    let server = start_prometheus(counter);
    let response = handle_request(&server.registry).unwrap();
    assert!(response.body.ends_with("# EOF\n"));
}

#[test]
fn encoded_text_becomes_the_body_unchanged() {
    let response = respond(Ok("anything at all\n".to_string())).unwrap();
    assert_eq!(response.status, 200);
    assert_eq!(response.content_type, CONTENT_TYPE);
    assert_eq!(response.body, "anything at all\n");
    let empty = respond(Ok(String::new())).unwrap();
    assert_eq!(empty.status, 200);
    assert_eq!(empty.body, "");
}

#[test]
fn encoding_failure_is_an_error() {
    let reply = respond(Err(std::fmt::Error));
    assert_eq!(reply.unwrap_err(), HandlerError::Encoding);
}

#[test]
fn content_type_names_format_and_version() {
    assert_eq!(content_type(), CONTENT_TYPE);
}

#[test]
fn shutdown_signal_drains_the_endpoint() {
    let step = on_shutdown_signal(ServerState::Serving, Ok(()));
    assert_eq!(step.state, ServerState::Drained);
    assert_eq!(step.line, Some("Shutdown prometheus task".to_string()));
}

#[test]
fn dropped_sender_drains_the_endpoint_too() {
    let (tx, rx) = tokio::sync::oneshot::channel::<()>();
    drop(tx);
    let step = on_shutdown_signal(ServerState::Serving, rx.blocking_recv());
    assert_eq!(step.state, ServerState::Drained);
    assert_eq!(step.line, Some("Shutdown prometheus task".to_string()));
}

#[test]
fn fired_signal_over_a_real_channel() {
    let (tx, rx) = tokio::sync::oneshot::channel::<()>();
    tx.send(()).unwrap();
    let step = on_shutdown_signal(ServerState::Serving, rx.blocking_recv());
    assert_eq!(step.state, ServerState::Drained);
    assert_eq!(step.line, Some("Shutdown prometheus task".to_string()));
}

#[test]
fn shutdown_signal_is_observed_once() {
    let first = on_shutdown_signal(ServerState::Serving, Ok(()));
    let second = on_shutdown_signal(first.state, Ok(()));
    assert_eq!(second.state, ServerState::Drained);
    assert_eq!(second.line, None);
}

#[test]
fn request_in_flight_is_answered_in_full_after_the_signal() {
    let counter: Arc<Counter<u64, AtomicU64>> = Arc::new(Counter::default());
    counter.inc();
    let server = start_prometheus(counter);
    let step = on_shutdown_signal(ServerState::Serving, Ok(()));
    assert_eq!(step.state, ServerState::Drained);
    let response = handle_request(&server.registry).unwrap();
    assert_eq!(response.status, 200);
    assert_eq!(response.content_type, CONTENT_TYPE);
    assert_eq!(response.body, exposition(1));
}

#[test]
fn serving_that_failed_is_fatal() {
    assert!(matches!(on_serve_end(true), ServerExit::Completed));
    match on_serve_end(false) {
        ServerExit::Fatal(message) => {
            assert_eq!(message, "Failed to bind hyper server with graceful_shutdown")
        }
        ServerExit::Completed => panic!("a failure must not pass for completion"),
    }
}

#[test]
fn every_request_on_the_agents_registry_is_answered() {
    let counter: Arc<Counter<u64, AtomicU64>> = Arc::new(Counter::default());
    let server = start_prometheus(counter.clone());
    for expected in 0..50u64 {
        let reply = handle_request(&server.registry);
        assert_eq!(reply.unwrap().body, exposition(expected));
        counter.inc();
    }
}

#[test]
fn registered_counter_is_the_callers() {
    let counter: Arc<Counter<u64, AtomicU64>> = Arc::new(Counter::default());
    let server = start_prometheus(counter.clone());
    counter.inc_by(5);
    assert_eq!(handle_request(&server.registry).unwrap().body, exposition(5));
    let other: Arc<Counter<u64, AtomicU64>> = Arc::new(Counter::default());
    other.inc_by(9);
    assert_eq!(handle_request(&server.registry).unwrap().body, exposition(5));
}
