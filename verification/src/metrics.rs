//! The metrics endpoint: the registry it exposes, the address it listens on,
//! the answer it gives to a request, and what it does when told to stop.
//!
//! The registry and its text encoding belong to `prometheus_client`; this
//! module prepares the registry, keeps it to counters, hands it to the
//! encoder on every request and turns what comes back into the answer.
//! Listening and serving are left to the program around the library.

use prometheus_client::metrics::counter::Counter;
use prometheus_client::registry::Registry;
use std::sync::atomic::AtomicU64;
use std::sync::Arc;
use vstd::prelude::*;

verus! {

/// `prometheus_client::registry::Registry`, taken as it is.
#[verifier::external_type_specification]
#[verifier::external_body]
pub struct ExRegistry(prometheus_client::registry::Registry);

/// `prometheus_client::metrics::counter::Counter`, taken as it is.
#[verifier::external_type_specification]
#[verifier::external_body]
#[verifier::reject_recursive_types(N)]
#[verifier::reject_recursive_types(A)]
pub struct ExCounter<N, A>(prometheus_client::metrics::counter::Counter<N, A>);

/// `std::fmt::Error`, taken as it is.
#[verifier::external_type_specification]
#[verifier::external_body]
pub struct ExFmtError(std::fmt::Error);

/// `tokio::sync::oneshot::error::RecvError`, taken as it is.
#[verifier::external_type_specification]
#[verifier::external_body]
pub struct ExSignalLost(tokio::sync::oneshot::error::RecvError);

/// The metrics that were registered directly with a registry, oldest first:
/// of each its name and its help text as the registry keeps it.
pub uninterp spec fn registered(registry: Registry) -> Seq<(Seq<char>, Seq<char>)>;

/// The counters behind the metrics that [`registered`] lists, in the same
/// order.
pub uninterp spec fn counters(registry: Registry) -> Seq<Counter<u64, AtomicU64>>;

/// Whether a registry holds counters of `u64` and nothing else, each
/// registered directly and without a unit: it has no prefix, no labels, no
/// collector and no sub-registry.
pub uninterp spec fn counters_only(registry: Registry) -> bool;

/// The text that `prometheus_client::encoding::text::encode` writes for
/// counters registered under the given names and help texts, in that order,
/// when their values are the given ones.
pub uninterp spec fn exposition(entries: Seq<(Seq<char>, Seq<char>)>, values: Seq<u64>) -> Seq<
    char,
>;

/// Calls `Registry::default`, which gives a registry with nothing in it.
#[verifier::external_body]
fn empty_registry() -> (registry: Registry)
    ensures
        registered(registry).len() == 0,
        counters(registry).len() == 0,
        counters_only(registry),
{
    Registry::default()
}

/// Calls `Clone::clone` of `Counter`: the result is a handle on the same
/// value, so what is counted through one is seen through the other.
#[verifier::external_body]
fn counter_handle(counter: &Counter<u64, AtomicU64>) -> (handle: Counter<u64, AtomicU64>)
    ensures
        handle == *counter,
{
    counter.clone()
}

/// Calls `Registry::register`, which appends the counter to the metrics
/// that the registry holds, under the given name and with a full stop added
/// to the given help text. No unit goes with it, so a registry of counters
/// only stays one.
#[verifier::external_body]
fn register_counter(
    registry: &mut Registry,
    name: &str,
    help: &str,
    counter: Counter<u64, AtomicU64>,
)
    ensures
        registered(*final(registry)) == registered(*old(registry)).push((name@, help@.push('.'))),
        counters(*final(registry)) == counters(*old(registry)).push(counter),
        counters_only(*old(registry)) ==> counters_only(*final(registry)),
{
    registry.register(name, help, counter);
}

/// Calls `prometheus_client::encoding::text::encode`, which appends the
/// exposition of the registry to the buffer. On a registry of counters only
/// nothing but the buffer can refuse what is written, and a `String` never
/// does, so the call succeeds. What is appended is the exposition of the
/// registered counters with the values that they have at that moment, and
/// the end-of-exposition marker is the last thing written.
#[verifier::external_body]
fn encode_into(buffer: &mut String, registry: &Registry) -> (written: Result<(), std::fmt::Error>)
    requires
        counters_only(*registry),
    ensures
        written is Ok,
        written is Ok ==> ends_with_eof(final(buffer)@),
        written is Ok ==> exists|values: Seq<u64>|
            values.len() == registered(*registry).len() && final(buffer)@ == old(buffer)@
                + #[trigger] exposition(registered(*registry), values),
{
    prometheus_client::encoding::text::encode(buffer, registry)
}

/// The port of the metrics endpoint.
pub const METRICS_PORT: u16 = 9090;

/// An IPv4 address, as its four parts, and a port to listen on.
#[derive(Clone, Copy, PartialEq, Eq, Debug, Structural)]
pub struct ListenAddr {
    pub a: u8,
    pub b: u8,
    pub c: u8,
    pub d: u8,
    pub port: u16,
}

/// The address of the metrics endpoint: every interface, port 9090.
pub open spec fn endpoint() -> ListenAddr {
    ListenAddr { a: 0, b: 0, c: 0, d: 0, port: 9090 }
}

/// The name under which the event counter is exposed.
pub open spec fn counter_name() -> Seq<char> {
    "event"@
}

/// The help text with which the event counter is registered.
pub open spec fn counter_help() -> Seq<char> {
    "desc event"@
}

/// The registry of the agent's counters: every metric in it is a counter,
/// registered under a name and with a help text.
pub struct CounterRegistry {
    registry: Registry,
}

impl CounterRegistry {
    #[verifier::type_invariant]
    spec fn holds_counters_only(self) -> bool {
        counters_only(self.registry)
    }

    /// The counters behind the entries, in the order of the entries.
    pub closed spec fn counters(self) -> Seq<Counter<u64, AtomicU64>> {
        counters(self.registry)
    }
}

impl View for CounterRegistry {
    type V = Seq<(Seq<char>, Seq<char>)>;

    /// The entries, oldest first: of each its name and its help text as it
    /// is exposed, which is the text it was registered with and a full stop.
    closed spec fn view(&self) -> Seq<(Seq<char>, Seq<char>)> {
        registered(self.registry)
    }
}

/// What the metrics endpoint needs before it can serve.
pub struct MetricsServer {
    /// Where to listen.
    pub addr: ListenAddr,
    /// What to expose.
    pub registry: CounterRegistry,
}

/// The address on which the metrics endpoint listens.
pub fn metrics_addr() -> (addr: ListenAddr)
    ensures
        addr == endpoint(),
{
    ListenAddr { a: 0, b: 0, c: 0, d: 0, port: METRICS_PORT }
}

/// Prepares the metrics endpoint: the address to serve on, and a registry
/// that exposes the caller's counter, and nothing else, as `event`.
pub fn start_prometheus(cnt: Arc<Counter<u64, AtomicU64>>) -> (server: MetricsServer)
    ensures
        server.addr == endpoint(),
        server.registry@ == seq![(counter_name(), counter_help().push('.'))],
        server.registry.counters() == seq![*cnt],
{
    let mut registry = empty_registry();
    let handle = counter_handle(&*cnt);
    register_counter(&mut registry, "event", "desc event", handle);
    proof {
        assert(registered(registry) =~= seq![(counter_name(), counter_help().push('.'))]);
        assert(counters(registry) =~= seq![*cnt]);
    }
    MetricsServer { addr: metrics_addr(), registry: CounterRegistry { registry } }
}

/// The answer to a request, as plain values.
#[derive(Debug)]
pub struct MetricsResponse {
    /// The HTTP status.
    pub status: u16,
    /// The value of the `Content-Type` header.
    pub content_type: String,
    /// The body.
    pub body: String,
}

/// A [`MetricsResponse`] as contracts speak of it.
pub struct ResponseView {
    pub status: int,
    pub content_type: Seq<char>,
    pub body: Seq<char>,
}

impl View for MetricsResponse {
    type V = ResponseView;

    open spec fn view(&self) -> ResponseView {
        ResponseView {
            status: self.status as int,
            content_type: self.content_type@,
            body: self.body@,
        }
    }
}

/// Why a request could not be answered.
#[derive(Clone, Copy, PartialEq, Eq, Debug, Structural)]
pub enum HandlerError {
    /// The registry could not be encoded.
    Encoding,
}

/// The content type that announces the exposition format and its version.
pub open spec fn content_type_text() -> Seq<char> {
    "application/openmetrics-text; version=1.0.0; charset=utf-8"@
}

/// The answer that carries the given exposition: status 200, the fixed
/// content type, and the text as the body, unchanged.
pub open spec fn response_for(text: Seq<char>) -> ResponseView {
    ResponseView { status: 200, content_type: content_type_text(), body: text }
}

/// Whether a text ends with the marker that closes an exposition.
pub open spec fn ends_with_eof(text: Seq<char>) -> bool {
    let marker = "# EOF\n"@;
    text.len() >= marker.len() && text.subrange(text.len() - marker.len(), text.len() as int)
        == marker
}

/// The value of the `Content-Type` header of every answer.
pub fn content_type() -> (value: String)
    ensures
        value@ == content_type_text(),
{
    "application/openmetrics-text; version=1.0.0; charset=utf-8".to_owned()
}

/// Turns what the encoder returned into the answer to a request: the
/// encoded text in a 200 response, or the error where encoding failed.
pub fn respond(encoded: Result<String, std::fmt::Error>) -> (reply: Result<
    MetricsResponse,
    HandlerError,
>)
    ensures
        match encoded {
            Ok(text) => reply matches Ok(response) && response@ == response_for(text@),
            Err(_) => reply == Err::<MetricsResponse, HandlerError>(HandlerError::Encoding),
        },
{
    match encoded {
        Ok(text) => Ok(MetricsResponse { status: 200, content_type: content_type(), body: text }),
        Err(_) => Err(HandlerError::Encoding),
    }
}

/// Answers one request. Neither the method nor the path of the request
/// matters, so neither is asked for: every request is answered, with status
/// 200, the fixed content type and, as the body, the complete exposition of
/// the registered counters with the values that they have at that moment.
pub fn handle_request(registry: &CounterRegistry) -> (reply: Result<MetricsResponse, HandlerError>)
    ensures
        reply matches Ok(response) && ends_with_eof(response@.body) && exists|values: Seq<u64>|
            values.len() == registry@.len() && response@ == response_for(
                #[trigger] exposition(registry@, values),
            ),
{
    proof {
        use_type_invariant(registry);
    }
    let mut buffer = String::new();
    let encoded = match encode_into(&mut buffer, &registry.registry) {
        Ok(()) => Ok(buffer),
        Err(error) => Err(error),
    };
    proof {
        let values = choose|values: Seq<u64>|
            values.len() == registered(registry.registry).len() && buffer@ == Seq::<char>::empty()
                + #[trigger] exposition(registered(registry.registry), values);
        assert(buffer@ =~= exposition(registry@, values));
    }
    respond(encoded)
}

/// The answer is the encoded text and nothing else: equal texts give equal
/// answers, byte for byte, and texts that differ give bodies that differ.
/// Nothing is kept from one request to the next.
pub proof fn law_answer_mirrors_text(first: Seq<char>, second: Seq<char>)
    ensures
        first == second <==> response_for(first) == response_for(second),
        response_for(first).body == first,
{
}

/// Whether the endpoint still serves.
#[derive(Clone, Copy, PartialEq, Eq, Debug, Structural)]
pub enum ServerState {
    /// New connections are accepted.
    Serving,
    /// The shutdown signal was observed: no new connection is accepted, and
    /// the endpoint ends once the connections in flight have completed.
    Drained,
}

/// What the endpoint does on its shutdown signal.
#[derive(Debug)]
pub struct ServerStep {
    /// The state afterwards.
    pub state: ServerState,
    /// The line to log, if any.
    pub line: Option<String>,
}

/// The line logged when the endpoint begins to shut down.
pub open spec fn shutdown_text() -> Seq<char> {
    "Shutdown prometheus task"@
}

/// Observes the shutdown signal, given what waiting on its receiver
/// yielded. A serving endpoint logs one line and is drained from then on;
/// whether the signal was fired or its sender was dropped without firing
/// makes no difference. The signal is observed at most once: on a drained
/// endpoint nothing happens.
pub fn on_shutdown_signal(
    state: ServerState,
    signal: Result<(), tokio::sync::oneshot::error::RecvError>,
) -> (step: ServerStep)
    ensures
        step.state == ServerState::Drained,
        step.line.deep_view() == (if state == ServerState::Serving {
            Some(shutdown_text())
        } else {
            None
        }),
{
    match state {
        ServerState::Serving => ServerStep {
            state: ServerState::Drained,
            line: Some("Shutdown prometheus task".to_owned()),
        },
        ServerState::Drained => ServerStep { state: ServerState::Drained, line: None },
    }
}

/// How the endpoint's task ends.
#[derive(Debug)]
pub enum ServerExit {
    /// Serving ended in order: the task completes.
    Completed,
    /// Serving failed, the socket could not be bound or served: the process
    /// ends with this message.
    Fatal(String),
}

/// The message with which the process ends when serving failed.
pub open spec fn serve_failure_text() -> Seq<char> {
    "Failed to bind hyper server with graceful_shutdown"@
}

/// Decides how the endpoint's task ends, given whether serving ended in
/// order. A failure is fatal: there is no retry.
pub fn on_serve_end(served: bool) -> (exit: ServerExit)
    ensures
        served ==> exit is Completed,
        !served ==> (exit matches ServerExit::Fatal(message) && message@ == serve_failure_text()),
{
    if served {
        ServerExit::Completed
    } else {
        ServerExit::Fatal("Failed to bind hyper server with graceful_shutdown".to_owned())
    }
}

} // verus!
