use newrelic_telemetry::endpoint::{push_decimal, Endpoint, TRACE_API_PATH};

#[test]
fn uri_from_endpoint_ok() {
    let endpoint = Endpoint {
        host: "host".to_string(),
        path: TRACE_API_PATH,
        port: Some(80),
    };

    let uri = endpoint.uri(true).unwrap();
    assert_eq!(uri.host(), Some("host"));
    assert_eq!(uri.port_u16(), Some(80));
    assert_eq!(uri.path(), "/trace/v1");
    assert_eq!(uri.scheme().unwrap().as_str(), "https");
}

#[test]
fn uri_from_endpoint_no_tls_ok() {
    let endpoint = Endpoint {
        host: "host".to_string(),
        path: TRACE_API_PATH,
        port: Some(80),
    };

    let uri = endpoint.uri(false).unwrap();
    assert_eq!(uri.host(), Some("host"));
    assert_eq!(uri.port_u16(), Some(80));
    assert_eq!(uri.path(), "/trace/v1");
    assert_eq!(uri.scheme().unwrap().as_str(), "http");
}

#[test]
fn uri_from_endpoint_error() {
    for endpoint in vec![
        Endpoint {
            host: "host:80".to_string(),
            path: TRACE_API_PATH,
            port: Some(80),
        },
        Endpoint {
            host: "?".to_string(),
            path: TRACE_API_PATH,
            port: Some(80),
        },
        Endpoint {
            host: "".to_string(),
            path: TRACE_API_PATH,
            port: None,
        },
    ] {
        let uri = endpoint.uri(true);

        assert!(
            uri.is_err(),
            "Could create an uri from {:?}: {:?}",
            endpoint,
            uri
        );
    }
}

#[test]
fn endpoint_text() {
    let mut endpoint = Endpoint {
        host: "trace-api.newrelic.com".to_string(),
        path: TRACE_API_PATH,
        port: None,
    };
    assert_eq!(endpoint.text(true), "https://trace-api.newrelic.com/trace/v1");
    assert_eq!(endpoint.text(false), "http://trace-api.newrelic.com/trace/v1");

    endpoint.port = Some(0);
    assert_eq!(endpoint.text(true), "https://trace-api.newrelic.com:0/trace/v1");
    endpoint.port = Some(8080);
    assert_eq!(
        endpoint.text(false),
        "http://trace-api.newrelic.com:8080/trace/v1"
    );
    endpoint.port = Some(65535);
    assert_eq!(
        endpoint.text(true),
        "https://trace-api.newrelic.com:65535/trace/v1"
    );
}

#[test]
fn decimal_text() {
    for n in [0u64, 7, 10, 99, 100, 1234567890, u64::MAX] {
        let mut text = String::from("n=");
        push_decimal(&mut text, n);
        assert_eq!(text, format!("n={}", n));
    }
}
