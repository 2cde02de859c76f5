use newrelic_telemetry::client::VERSION;
use newrelic_telemetry::{ClientBuilder, Duration};

#[test]
fn builder_default() {
    let b = ClientBuilder::new("0000");

    assert_eq!(b.api_key, "0000");
    assert_eq!(b.backoff_factor, Duration::from_secs(5));
    assert_eq!(b.retries_max, 8);
    assert_eq!(b.endpoint_traces.host, "trace-api.newrelic.com");
    assert_eq!(b.endpoint_traces.port, None);
    assert_eq!(b.product_info, None);
    assert_eq!(b.use_tls, true);
}

#[test]
fn builder_setters() {
    let b = ClientBuilder::new("0000")
        .backoff_factor(Duration::from_secs(10))
        .retries_max(10)
        .endpoint_traces("127.0.0.1", Some(8080))
        .product_info("Test", "1.0");

    assert_eq!(b.api_key, "0000");
    assert_eq!(b.backoff_factor, Duration::from_secs(10));
    assert_eq!(b.retries_max, 10);
    assert_eq!(b.endpoint_traces.host, "127.0.0.1");
    assert_eq!(b.endpoint_traces.port, Some(8080));
    assert_eq!(
        b.product_info,
        Some(("Test".to_string(), "1.0".to_string()))
    );
}

#[test]
fn backoff_sequence_default() {
    let seq = ClientBuilder::new("").get_backoff_sequence();

    assert_eq!(
        seq,
        vec![0, 5, 10, 20, 40, 80, 160, 320]
            .into_iter()
            .map(Duration::from_secs)
            .collect::<Vec<Duration>>()
    );
}

#[test]
fn backoff_sequence_no_retry() {
    let seq = ClientBuilder::new("").retries_max(0).get_backoff_sequence();

    assert_eq!(seq, vec![]);
}

#[test]
fn backoff_sequence_custom() {
    let seq = ClientBuilder::new("")
        .backoff_factor(Duration::from_secs(2))
        .retries_max(6)
        .get_backoff_sequence();

    assert_eq!(
        seq,
        vec![0, 2, 4, 8, 16, 32]
            .into_iter()
            .map(Duration::from_secs)
            .collect::<Vec<Duration>>()
    );
}

#[test]
fn user_agent_header_default() {
    let header = ClientBuilder::new("").get_user_agent_header();

    assert_eq!(header, format!("NewRelic-Rust-TelemetrySDK/{}", VERSION));
}

#[test]
fn user_agent_header_custom() {
    let header = ClientBuilder::new("")
        .product_info("Doc", "1.0")
        .get_user_agent_header();

    assert_eq!(
        header,
        format!("NewRelic-Rust-TelemetrySDK/{} Doc/1.0", VERSION)
    );
}

#[test]
fn backoff_sequence_saturates() {
    let seq = ClientBuilder::new("")
        .backoff_factor(Duration::from_secs(u64::MAX / 4))
        .retries_max(40)
        .get_backoff_sequence();

    assert_eq!(seq.len(), 40);
    assert_eq!(seq[0], Duration::from_secs(0));
    assert_eq!(seq[1], Duration::from_secs(u64::MAX / 4));
    assert_eq!(seq[2], Duration::from_secs(u64::MAX / 4 * 2));
    assert_eq!(seq[3], Duration::from_secs(u64::MAX / 4 * 4));
    for wait in &seq[4..] {
        assert_eq!(wait.as_secs(), u64::MAX);
        assert_eq!(wait.subsec_nanos(), 999_999_999);
    }
}

#[test]
fn backoff_sequence_long() {
    let seq = ClientBuilder::new("")
        .backoff_factor(Duration::from_millis(1))
        .retries_max(34)
        .get_backoff_sequence();

    assert_eq!(seq.len(), 34);
    assert_eq!(seq[33], Duration::from_millis(1u64 << 32));
}

#[test]
fn backoff_sequence_zero_factor() {
    let seq = ClientBuilder::new("")
        .backoff_factor(Duration::from_secs(0))
        .retries_max(3)
        .get_backoff_sequence();

    assert_eq!(seq, vec![Duration::from_secs(0); 3]);
}

#[test]
fn builder_queue_and_tls() {
    let b = ClientBuilder::new("0000");
    assert_eq!(b.blocking_queue_max, 100);

    let b = b.blocking_queue_max(10).tls(false);
    assert_eq!(b.blocking_queue_max, 10);
    assert_eq!(b.use_tls, false);
    assert_eq!(b.api_key, "0000");
    assert_eq!(b.retries_max, 8);

    let client = b.build_blocking().unwrap();
    assert_eq!(client.queue_max, 10);
    assert_eq!(client.client.endpoint_traces.scheme().unwrap().as_str(), "http");
    assert_eq!(client.client.backoff_sequence.len(), 8);
}
