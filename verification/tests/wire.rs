use newrelic_telemetry::wire::payload;

#[test]
fn payload_without_records() {
    assert_eq!(payload("spans", &vec![], None), "[{\"spans\":[]}]");
    assert_eq!(payload("metrics", &vec![], None), "[{\"metrics\":[]}]");
}

#[test]
fn payload_with_records() {
    let one = vec!["{\"id\":1}".to_string()];
    assert_eq!(payload("spans", &one, None), "[{\"spans\":[{\"id\":1}]}]");

    let three = vec!["1".to_string(), "2".to_string(), "3".to_string()];
    assert_eq!(payload("metrics", &three, None), "[{\"metrics\":[1,2,3]}]");
}

#[test]
fn payload_with_attributes() {
    let two = vec!["{}".to_string(), "{}".to_string()];
    assert_eq!(
        payload("spans", &two, Some("{\"a\":true}")),
        "[{\"spans\":[{},{}],\"common\":{\"attributes\":{\"a\":true}}}]"
    );
    assert_eq!(
        payload("spans", &vec![], Some("{}")),
        "[{\"spans\":[],\"common\":{\"attributes\":{}}}]"
    );
}

#[test]
fn payload_is_json() {
    let two = vec![
        "{\"id\":\"a\",\"timestamp\":1}".to_string(),
        "{\"id\":\"b\",\"timestamp\":2}".to_string(),
    ];
    let text = payload("spans", &two, Some("{\"host\":\"h\"}"));
    let parsed = serde_json::from_str::<serde_json::Value>(&text).unwrap();

    assert_eq!(parsed.as_array().unwrap().len(), 1);
    assert_eq!(parsed[0]["spans"].as_array().unwrap().len(), 2);
    assert_eq!(parsed[0]["spans"][1]["id"], "b");
    assert_eq!(parsed[0]["common"]["attributes"]["host"], "h");
}
