use flate2::read::GzDecoder;
use newrelic_telemetry::attribute::{Attributes, Value};
use newrelic_telemetry::client::{MarshallError, Request, VERSION};
use newrelic_telemetry::delivery::{Action, Delivery, Event};
use newrelic_telemetry::queue::{Command, Signal};
use newrelic_telemetry::response::{find_header, Header, Response};
use newrelic_telemetry::{blocking, Client, ClientBuilder, Duration, Sendable, Span, SpanBatch};
use std::collections::VecDeque;
use std::io::Read;

/// A span batch that renders itself as its payload.
struct Outgoing(SpanBatch);

fn render_value(value: &Value) -> serde_json::Value {
    match value {
        Value::Int(v) => serde_json::Value::from(*v),
        Value::UInt(v) => serde_json::Value::from(*v),
        Value::Int128(v) => serde_json::to_value(*v).unwrap(),
        Value::UInt128(v) => serde_json::to_value(*v).unwrap(),
        Value::Str(v) => serde_json::Value::from(v.as_str()),
        Value::Float(v) => serde_json::Value::from(f64::from_bits(*v)),
        Value::Bool(v) => serde_json::Value::from(*v),
    }
}

fn render_attributes(attributes: &Attributes) -> serde_json::Value {
    let mut members = serde_json::Map::new();
    let mut index = 0;
    while let Some((key, value)) = attributes.entry(index) {
        members.insert(key.to_string(), render_value(value));
        index += 1;
    }
    serde_json::Value::Object(members)
}

fn render_span(span: &Span) -> String {
    let mut members = serde_json::Map::new();
    members.insert("id".to_string(), serde_json::Value::from(span.id.as_str()));
    members.insert(
        "trace.id".to_string(),
        serde_json::Value::from(span.trace_id.as_str()),
    );
    members.insert(
        "timestamp".to_string(),
        serde_json::Value::from(span.timestamp),
    );
    if !span.attributes.is_empty() {
        members.insert("attributes".to_string(), render_attributes(&span.attributes));
    }
    serde_json::Value::Object(members).to_string()
}

impl Sendable for Outgoing {
    fn uuid(&self) -> &str {
        self.0.uuid()
    }

    fn marshall(&self) -> Result<String, MarshallError> {
        let spans: Vec<String> = self.0.spans.iter().map(render_span).collect();
        let attributes = render_attributes(&self.0.attributes).to_string();
        Ok(self.0.frame(&spans, &attributes))
    }

    fn split(&mut self) -> Self {
        Outgoing(self.0.split())
    }
}

/// An endpoint that answers from a script and keeps what it was sent.
struct Endpoint {
    replies: VecDeque<Response>,
    payloads: VecDeque<Request>,
    waits: Vec<Duration>,
}

impl Endpoint {
    fn new() -> Endpoint {
        Endpoint {
            replies: VecDeque::new(),
            payloads: VecDeque::new(),
            waits: Vec::new(),
        }
    }

    fn reply(&mut self, code: u16) {
        self.reply_details(code, vec![]);
    }

    fn reply_details(&mut self, code: u16, headers: Vec<(String, String)>) {
        self.replies.push_back(Response {
            status: code,
            headers: headers
                .into_iter()
                .map(|(name, value)| Header {
                    name: name.into_bytes(),
                    value: value.into_bytes(),
                })
                .collect(),
        });
    }

    fn exchange(&mut self, request: Request) -> Option<Response> {
        self.payloads.push_back(request);
        self.replies.pop_front()
    }

    fn next_payload(&mut self) -> Result<Request, ()> {
        self.payloads.pop_front().ok_or(())
    }
}

/// Drives one delivery to its end against the scripted endpoint.
fn deliver(client: &Client, batch: Outgoing, endpoint: &mut Endpoint) {
    let mut batch = batch;
    let (mut state, mut action) = Delivery::start(&client.backoff_sequence);
    loop {
        match action {
            Action::Send { wait } => {
                endpoint.waits.push(wait);
                let event = match client.request(&batch, &client.endpoint_traces) {
                    Ok(request) => match endpoint.exchange(request) {
                        Some(response) => {
                            Event::Response(Client::process_response(&batch, response))
                        }
                        None => Event::TransportFailed,
                    },
                    Err(_) => Event::RequestFailed,
                };
                let moved = state.advance(event, &client.backoff_sequence);
                state = moved.0;
                action = moved.1;
            }
            Action::Split => {
                let half = batch.split();
                deliver(client, batch, endpoint);
                deliver(client, half, endpoint);
                return;
            }
            Action::Stop(_) => return,
        }
    }
}

/// Runs the worker of a blocking client over everything that was submitted
/// before it first looked at its queue.
fn send_all(client: &blocking::Client, submitted: Vec<SpanBatch>, endpoint: &mut Endpoint) -> usize {
    let mut queue: VecDeque<SpanBatch> = submitted.into();
    let mut dropped_in_all = 0;
    let (mut worker, mut command) = client.worker::<SpanBatch>();
    loop {
        let signal = match command {
            Command::Receive => match queue.pop_front() {
                Some(batch) => Signal::Batch(batch),
                None => Signal::Closed,
            },
            Command::Poll => match queue.pop_front() {
                Some(batch) => Signal::Batch(batch),
                None => Signal::Empty,
            },
            Command::Deliver { batches, dropped } => {
                dropped_in_all += dropped;
                for batch in batches {
                    deliver(&client.client, Outgoing(batch), endpoint);
                }
                Signal::Delivered
            }
            Command::Exit => return dropped_in_all,
        };
        assert!(worker.awaits(&signal));
        let moved = worker.step(signal, client.queue_max);
        worker = moved.0;
        command = moved.1;
    }
}

fn setup() -> (Endpoint, blocking::Client) {
    let endpoint = Endpoint::new();
    let client = ClientBuilder::new("license")
        .endpoint_traces("localhost", Some(8080))
        .tls(false)
        .build_blocking()
        .unwrap();

    (endpoint, client)
}

fn gunzip(bytes: &[u8]) -> String {
    let mut gz = GzDecoder::new(bytes);
    let mut decoded = String::new();
    gz.read_to_string(&mut decoded).unwrap();
    decoded
}

fn header_text(request: &Request, name: &str) -> Option<String> {
    find_header(&request.headers, name.as_bytes())
        .map(|value| String::from_utf8(value.clone()).unwrap())
}

fn json(text: &str) -> serde_json::Value {
    serde_json::from_str::<serde_json::Value>(text).unwrap()
}

#[test]
fn backoff() {
    let mut endpoint = Endpoint::new();
    let client = ClientBuilder::new("license")
        .retries_max(3)
        .backoff_factor(Duration::from_secs(0))
        .endpoint_traces("localhost", Some(8080))
        .tls(false)
        .build_blocking()
        .unwrap();

    let span_batch = SpanBatch::new();

    for _ in 1..4 {
        endpoint.reply(500);
    }
    send_all(&client, vec![span_batch], &mut endpoint);

    for num in 1..4 {
        assert!(endpoint.next_payload().is_ok(), "receiving payload {}", num);
    }

    assert!(endpoint.next_payload().is_err(), "dropping payload");
    assert!(endpoint.replies.is_empty());
}

#[test]
fn backoff_gives_up_with_answers_left() {
    let mut endpoint = Endpoint::new();
    let client = ClientBuilder::new("license")
        .retries_max(3)
        .backoff_factor(Duration::from_secs(0))
        .build_blocking()
        .unwrap();

    for _ in 0..5 {
        endpoint.reply(500);
    }
    send_all(&client, vec![SpanBatch::new()], &mut endpoint);

    assert_eq!(endpoint.payloads.len(), 3);
    assert_eq!(endpoint.replies.len(), 2);
}

#[test]
fn backoff_waits() {
    let mut endpoint = Endpoint::new();
    let client = ClientBuilder::new("license")
        .retries_max(4)
        .backoff_factor(Duration::from_secs(2))
        .build()
        .unwrap();

    for _ in 0..4 {
        endpoint.reply(503);
    }
    deliver(&client, Outgoing(SpanBatch::new()), &mut endpoint);

    assert_eq!(endpoint.payloads.len(), 4);
    assert_eq!(
        endpoint.waits,
        vec![0, 2, 4, 8]
            .into_iter()
            .map(Duration::from_secs)
            .collect::<Vec<Duration>>()
    );
}

#[test]
fn no_retries_no_request() {
    let mut endpoint = Endpoint::new();
    let client = ClientBuilder::new("license")
        .retries_max(0)
        .build()
        .unwrap();

    endpoint.reply(202);
    deliver(&client, Outgoing(SpanBatch::new()), &mut endpoint);

    assert_eq!(endpoint.payloads.len(), 0);
}

#[test]
fn retry_after() {
    let mut endpoint = Endpoint::new();
    let client = ClientBuilder::new("license")
        .retries_max(5)
        .backoff_factor(Duration::from_secs(3600))
        .endpoint_traces("localhost", Some(8080))
        .tls(false)
        .build_blocking()
        .unwrap();

    let span_batch = SpanBatch::new();

    for _ in 1..6 {
        endpoint.reply_details(
            429,
            vec![("Retry-After".to_string(), "0".to_string())],
        );
    }
    send_all(&client, vec![span_batch], &mut endpoint);

    for num in 1..6 {
        assert!(endpoint.next_payload().is_ok(), "receiving payload {}", num);
    }

    assert!(endpoint.next_payload().is_err(), "dropping payload");
    assert_eq!(endpoint.waits, vec![Duration::from_secs(0); 5]);
}

#[test]
fn retry_after_holds_for_one_attempt() {
    let mut endpoint = Endpoint::new();
    let client = ClientBuilder::new("license")
        .retries_max(4)
        .backoff_factor(Duration::from_secs(10))
        .build()
        .unwrap();

    endpoint.reply_details(429, vec![("retry-after".to_string(), "7".to_string())]);
    endpoint.reply(500);
    endpoint.reply(500);
    endpoint.reply(202);
    deliver(&client, Outgoing(SpanBatch::new()), &mut endpoint);

    assert_eq!(endpoint.payloads.len(), 4);
    assert_eq!(
        endpoint.waits,
        vec![0, 7, 20, 40]
            .into_iter()
            .map(Duration::from_secs)
            .collect::<Vec<Duration>>()
    );
}

#[test]
fn headers() {
    let (mut endpoint, client) = setup();

    let span_batch = SpanBatch::new();
    let uuid = span_batch.uuid().to_string();

    endpoint.reply(202);
    send_all(&client, vec![span_batch], &mut endpoint);

    let p = endpoint.next_payload().unwrap();

    assert_eq!(
        header_text(&p, "content-type"),
        Some("application/json".to_string())
    );
    assert_eq!(header_text(&p, "content-encoding"), Some("gzip".to_string()));

    assert_eq!(header_text(&p, "data-format"), Some("newrelic".to_string()));
    assert_eq!(header_text(&p, "data-format-version"), Some("1".to_string()));

    let user_agent = format!("NewRelic-Rust-TelemetrySDK/{}", VERSION);
    assert_eq!(header_text(&p, "user-agent"), Some(user_agent));

    assert_eq!(header_text(&p, "api-key"), Some("license".to_string()));
    assert_eq!(header_text(&p, "x-request-id"), Some(uuid));
    assert_eq!(p.uri.to_string(), "http://localhost:8080/trace/v1");
}

#[test]
fn product() {
    let mut endpoint = Endpoint::new();
    let client = ClientBuilder::new("license")
        .endpoint_traces("localhost", Some(8080))
        .product_info("SomeProduct", "3.14.9")
        .tls(false)
        .build_blocking()
        .unwrap();

    let span_batch = SpanBatch::new();

    endpoint.reply(202);
    send_all(&client, vec![span_batch], &mut endpoint);

    let p = endpoint.next_payload().unwrap();

    let user_agent = format!(
        "NewRelic-Rust-TelemetrySDK/{} SomeProduct/3.14.9",
        VERSION
    );
    assert_eq!(header_text(&p, "user-agent"), Some(user_agent));
}

#[test]
fn drop_payload() {
    for code in vec![400, 401, 403, 404, 405, 409, 410, 411] {
        let (mut endpoint, client) = setup();

        let span_batch = SpanBatch::new();

        endpoint.reply(code);
        endpoint.reply(202);
        send_all(&client, vec![span_batch], &mut endpoint);

        assert!(endpoint.next_payload().is_ok(), "first attempt to send");
        assert!(endpoint.next_payload().is_err(), "payload dropped");
    }
}

#[test]
fn backpressure() {
    let mut endpoint = Endpoint::new();
    let client = ClientBuilder::new("license")
        .endpoint_traces("localhost", Some(8080))
        .tls(false)
        .blocking_queue_max(1)
        .build_blocking()
        .unwrap();

    let mut submitted = Vec::new();
    for _ in 0..10 {
        submitted.push(SpanBatch::new());
    }
    let first = submitted[0].uuid().to_string();

    endpoint.reply(202);
    let dropped = send_all(&client, submitted, &mut endpoint);

    let sent = endpoint.next_payload();
    assert!(sent.is_ok(), "first batch sent");
    assert_eq!(header_text(&sent.unwrap(), "x-request-id"), Some(first));

    assert!(
        endpoint.next_payload().is_err(),
        "additional batches dropped"
    );
    assert_eq!(dropped, 9);
}

#[test]
fn backpressure_within_the_maximum() {
    for count in 0..4usize {
        let mut endpoint = Endpoint::new();
        let client = ClientBuilder::new("license")
            .blocking_queue_max(3)
            .build_blocking()
            .unwrap();

        let mut submitted = Vec::new();
        for _ in 0..count {
            submitted.push(SpanBatch::new());
            endpoint.reply(202);
        }
        let dropped = send_all(&client, submitted, &mut endpoint);

        assert_eq!(dropped, 0);
        assert_eq!(endpoint.payloads.len(), count);
    }
}

#[test]
fn spans_empty() {
    let (mut endpoint, client) = setup();

    endpoint.reply(202);
    send_all(&client, vec![SpanBatch::new()], &mut endpoint);

    let p = endpoint.next_payload().unwrap();
    assert_eq!(gunzip(&p.body[..]), "[{\"spans\":[]}]");
    assert_eq!(json(&gunzip(&p.body[..])), json("[{ \"spans\" : [] }]"));
    assert!(endpoint.next_payload().is_err());
}

#[test]
fn split_payload() {
    let (mut endpoint, client) = setup();

    let span_batch: SpanBatch = vec![
        Span::new("id1", "tid1", 1000),
        Span::new("id2", "tid2", 2000),
        Span::new("id1", "tid1", 1000),
        Span::new("id2", "tid2", 2000),
    ]
    .into();

    endpoint.reply(413);
    endpoint.reply(202);
    endpoint.reply(202);
    send_all(&client, vec![span_batch], &mut endpoint);

    // Skip the first payload that is rejected.
    let rejected = endpoint.next_payload().unwrap();
    assert_eq!(
        json(&gunzip(&rejected.body[..]))[0]["spans"]
            .as_array()
            .unwrap()
            .len(),
        4
    );

    let expected = r#"
        [{
          "spans": [
            {
              "id": "id1",
              "timestamp": 1000,
              "trace.id": "tid1"
            },
            {
              "id": "id2",
              "timestamp": 2000,
              "trace.id": "tid2"
            }
          ]
        }]"#;

    let first = endpoint.next_payload().unwrap();
    assert_eq!(json(&gunzip(&first.body[..])), json(expected));

    let second = endpoint.next_payload().unwrap();
    assert_eq!(json(&gunzip(&second.body[..])), json(expected));

    assert!(endpoint.next_payload().is_err());
    assert_ne!(
        header_text(&first, "x-request-id"),
        header_text(&second, "x-request-id")
    );
    assert_ne!(
        header_text(&rejected, "x-request-id"),
        header_text(&first, "x-request-id")
    );
}

#[test]
fn split_keeps_common_attributes() {
    let (mut endpoint, client) = setup();

    let span_batch = SpanBatch::from(vec![
        Span::new("a", "t", 1).name("first"),
        Span::new("b", "t", 2),
        Span::new("c", "t", 3),
    ])
    .attribute("host", "h1");

    endpoint.reply(413);
    endpoint.reply(202);
    endpoint.reply(202);
    send_all(&client, vec![span_batch], &mut endpoint);

    endpoint.next_payload().unwrap();
    let first = json(&gunzip(&endpoint.next_payload().unwrap().body[..]));
    let second = json(&gunzip(&endpoint.next_payload().unwrap().body[..]));

    assert_eq!(first[0]["spans"].as_array().unwrap().len(), 1);
    assert_eq!(second[0]["spans"].as_array().unwrap().len(), 2);
    assert_eq!(first[0]["spans"][0]["attributes"]["name"], "first");
    assert_eq!(first[0]["common"], second[0]["common"]);
    assert_eq!(first[0]["common"]["attributes"]["host"], "h1");
}

#[test]
fn transport_failure_ends_the_delivery() {
    let mut endpoint = Endpoint::new();
    let client = ClientBuilder::new("license").build().unwrap();

    deliver(&client, Outgoing(SpanBatch::new()), &mut endpoint);

    assert_eq!(endpoint.payloads.len(), 1);
}

#[test]
fn spanbatch_to_json() {
    let batch = SpanBatch::from(vec![
        Span::new("id0", "trace_id0", 1),
        Span::new("id1", "trace_id1", 1),
    ])
    .attribute("attr.test", 3);

    let expected_string = r#"[{"spans":[
            {"id":"id0","trace.id":"trace_id0","timestamp":1},
            {"id":"id1","trace.id":"trace_id1","timestamp":1}],
            "common":{"attributes":{"attr.test":3}}}]"#;

    let marshalled = Outgoing(batch).marshall().unwrap();
    assert_eq!(json(marshalled.as_str()), json(expected_string));
}

#[test]
fn spanbatch_attribute_chain() {
    let batch = SpanBatch::new()
        .attribute("bad_dogs", 0)
        .attribute("howdy", "y'all");
    let expected_string =
        r#"[{"spans":[],"common":{"attributes":{"bad_dogs":0,"howdy":"y'all"}}}]"#;
    let marshalled = Outgoing(batch).marshall().unwrap();
    assert_eq!(json(marshalled.as_str()), json(expected_string));
    assert_eq!(marshalled, expected_string);
}
