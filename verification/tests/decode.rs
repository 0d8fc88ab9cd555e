use connectedpapers::ClientError;
use connectedpapers::GraphResponse;
use connectedpapers::GraphResponseStatuses;
use connectedpapers::GraphSnapshot;
use connectedpapers::Progress;

fn value(text: &str) -> serde_json::Value {
    serde_json::from_str(text).unwrap()
}

fn graph(text: &str) -> GraphSnapshot {
    GraphSnapshot::from_value(value(text)).unwrap()
}

fn progress(text: &str) -> Progress {
    Progress::from_value(value(text)).unwrap()
}

fn decode(text: &str) -> Result<GraphResponse, ClientError> {
    GraphResponse::decode(text.as_bytes())
}

#[test]
fn decodes_a_full_body() {
    let body = r#"{"status":"FRESH_GRAPH","graph_json":{"start_id":"doc1","edges":[]},"progress":0.25}"#;
    let response = decode(body).unwrap();
    assert_eq!(response.status, GraphResponseStatuses::FreshGraph);
    assert_eq!(
        response.graph_json.as_ref().unwrap().as_value(),
        &value(r#"{"start_id":"doc1","edges":[]}"#)
    );
    assert_eq!(response.progress, Some(progress("0.25")));
    assert_eq!(response.progress.unwrap().as_value().as_f64(), Some(0.25));
}

#[test]
fn decodes_every_known_status() {
    for status in GraphResponseStatuses::all() {
        let body = format!(r#"{{"status":"{}","graph_json":null,"progress":null}}"#, status.as_wire());
        let response = decode(&body).unwrap();
        assert_eq!(response.status, status);
        assert_eq!(response.graph_json, None);
        assert_eq!(response.progress, None);
    }
}

#[test]
fn unrecognized_status_decodes_as_error() {
    let body = r#"{"status":"RECOMPUTING","graph_json":{"start_id":"doc1"},"progress":0.5}"#;
    let response = decode(body).unwrap();
    assert_eq!(response.status, GraphResponseStatuses::Error);
    assert_eq!(response.graph_json, Some(graph(r#"{"start_id":"doc1"}"#)));
    assert_eq!(response.progress, Some(progress("0.5")));
}

#[test]
fn missing_status_decodes_as_error() {
    let response = decode(r#"{"graph_json":{"start_id":"doc1"}}"#).unwrap();
    assert_eq!(response.status, GraphResponseStatuses::Error);
    assert_eq!(response.graph_json, Some(graph(r#"{"start_id":"doc1"}"#)));
    assert_eq!(response.progress, None);
}

#[test]
fn status_of_another_kind_decodes_as_error() {
    assert_eq!(decode(r#"{"status":4}"#).unwrap().status, GraphResponseStatuses::Error);
    assert_eq!(decode(r#"{"status":null}"#).unwrap().status, GraphResponseStatuses::Error);
    assert_eq!(
        decode(r#"{"status":["FRESH_GRAPH"]}"#).unwrap().status,
        GraphResponseStatuses::Error
    );
    assert_eq!(
        decode(r#"{"status":{"FRESH_GRAPH":null}}"#).unwrap().status,
        GraphResponseStatuses::Error
    );
}

#[test]
fn status_is_read_from_the_top_level_only() {
    let response = decode(r#"{"data":{"status":"FRESH_GRAPH"},"Status":"QUEUED"}"#).unwrap();
    assert_eq!(response.status, GraphResponseStatuses::Error);
    let response = decode(r#"{"graph_json":{"status":"QUEUED"},"status":"IN_PROGRESS"}"#).unwrap();
    assert_eq!(response.status, GraphResponseStatuses::InProgress);
}

#[test]
fn body_that_is_no_object_decodes_as_bare_error() {
    for body in ["null", "42", "\"FRESH_GRAPH\"", "[1,2]", "true", "{}"] {
        let response = decode(body).unwrap();
        assert_eq!(response, GraphResponse::unknown());
    }
}

#[test]
fn unknown_outcome_is_a_bare_error() {
    let unknown = GraphResponse::unknown();
    assert_eq!(unknown.status, GraphResponseStatuses::Error);
    assert_eq!(unknown.graph_json, None);
    assert_eq!(unknown.progress, None);
}

#[test]
fn absent_or_null_graph_is_no_graph() {
    assert_eq!(decode(r#"{"status":"QUEUED"}"#).unwrap().graph_json, None);
    assert_eq!(decode(r#"{"status":"QUEUED","graph_json":null}"#).unwrap().graph_json, None);
}

#[test]
fn empty_object_is_a_graph() {
    let response = decode(r#"{"status":"OLD_GRAPH","graph_json":{}}"#).unwrap();
    assert_eq!(response.graph_json, Some(graph("{}")));
}

#[test]
fn graph_of_another_kind_fails_decoding() {
    for field in ["42", "\"graph\"", "[]", "true", "[{\"start_id\":\"doc1\"}]"] {
        let body = format!(r#"{{"status":"FRESH_GRAPH","graph_json":{}}}"#, field);
        assert_eq!(decode(&body), Err(ClientError::DecodeFailure));
    }
}

#[test]
fn progress_is_carried_as_the_number_sent() {
    for (field, double) in [
        ("0.75", 0.75f64),
        ("1", 1.0),
        ("0", 0.0),
        ("-2", -2.0),
        ("1e-3", 0.001),
        ("0.1", 0.1),
        ("18446744073709551615", 18446744073709551615.0),
    ] {
        let body = format!(r#"{{"status":"IN_PROGRESS","progress":{}}}"#, field);
        let carried = decode(&body).unwrap().progress.unwrap();
        assert_eq!(carried, progress(field));
        assert_eq!(carried.as_value(), &value(field));
        assert_eq!(carried.as_value().as_f64(), Some(double));
    }
}

#[test]
fn progress_takes_numbers_only() {
    assert!(Progress::from_value(value("0.5")).is_some());
    assert!(Progress::from_value(value("3")).is_some());
    assert!(Progress::from_value(value("-1e9")).is_some());
    assert!(Progress::from_value(value("\"0.5\"")).is_none());
    assert!(Progress::from_value(value("null")).is_none());
    assert!(Progress::from_value(value("true")).is_none());
    assert!(Progress::from_value(value("[0.5]")).is_none());
    assert!(Progress::from_value(value("{}")).is_none());
}

#[test]
fn progress_hands_its_value_on_unchanged() {
    let half = progress("0.5");
    let copy = half.clone();
    assert_eq!(copy, half);
    assert_eq!(copy.into_value(), value("0.5"));
    assert_eq!(half.into_value(), value("0.5"));
}

#[test]
fn absent_or_null_progress_is_no_progress() {
    assert_eq!(decode(r#"{"status":"QUEUED"}"#).unwrap().progress, None);
    assert_eq!(decode(r#"{"status":"QUEUED","progress":null}"#).unwrap().progress, None);
}

#[test]
fn progress_of_another_kind_fails_decoding() {
    for field in ["\"0.5\"", "true", "[0.5]", "{\"value\":0.5}"] {
        let body = format!(r#"{{"status":"IN_PROGRESS","progress":{}}}"#, field);
        assert_eq!(decode(&body), Err(ClientError::DecodeFailure));
    }
}

#[test]
fn text_that_is_no_json_fails_decoding() {
    for body in [
        "",
        "   ",
        "<html>busy</html>",
        "{",
        r#"{"status":"FRESH_GRAPH""#,
        r#"{"status":"FRESH_GRAPH"} trailing"#,
        r#"{'status':'FRESH_GRAPH'}"#,
        "FRESH_GRAPH",
    ] {
        assert_eq!(decode(body), Err(ClientError::DecodeFailure));
    }
}

#[test]
fn bytes_that_are_no_text_fail_decoding() {
    assert_eq!(GraphResponse::decode(&[0xff, 0xfe, 0x00]), Err(ClientError::DecodeFailure));
    assert_eq!(GraphResponse::decode(&[b'"', 0xc3, b'"']), Err(ClientError::DecodeFailure));
}

#[test]
fn surrounding_whitespace_is_accepted() {
    let response = decode(" \n\t{ \"status\" : \"QUEUED\" }\r\n").unwrap();
    assert_eq!(response.status, GraphResponseStatuses::Queued);
}

#[test]
fn from_value_decodes_a_parsed_body() {
    let body = value(r#"{"status":"OLD_GRAPH","graph_json":{"start_id":"doc7"},"progress":0.5}"#);
    let response = GraphResponse::from_value(&body).unwrap();
    assert_eq!(response.status, GraphResponseStatuses::OldGraph);
    assert_eq!(response.graph_json, Some(graph(r#"{"start_id":"doc7"}"#)));
    assert_eq!(response.progress, Some(progress("0.5")));
    assert_eq!(
        GraphResponse::from_value(&value(r#"{"status":"OLD_GRAPH","graph_json":7}"#)),
        Err(ClientError::DecodeFailure)
    );
}

#[test]
fn from_fields_builds_the_outcome_as_given() {
    let response = GraphResponse::from_fields(
        Some("NOT_IN_DB"),
        Some(graph(r#"{"start_id":"doc1"}"#)),
        Some(progress("7")),
    );
    assert_eq!(response.status, GraphResponseStatuses::NotInDb);
    assert_eq!(response.graph_json, Some(graph(r#"{"start_id":"doc1"}"#)));
    assert_eq!(response.progress, Some(progress("7")));

    let response = GraphResponse::from_fields(Some("not a status"), None, None);
    assert_eq!(response, GraphResponse::unknown());
    let response = GraphResponse::from_fields(None, None, None);
    assert_eq!(response, GraphResponse::unknown());
}

#[test]
fn snapshot_takes_objects_only() {
    assert!(GraphSnapshot::from_value(value(r#"{"nodes":{}}"#)).is_some());
    assert!(GraphSnapshot::from_value(value("{}")).is_some());
    assert!(GraphSnapshot::from_value(value("null")).is_none());
    assert!(GraphSnapshot::from_value(value("[]")).is_none());
    assert!(GraphSnapshot::from_value(value("1")).is_none());
    assert!(GraphSnapshot::from_value(value("\"graph\"")).is_none());
    assert!(GraphSnapshot::from_value(value("false")).is_none());
}

#[test]
fn snapshot_hands_its_value_on_unchanged() {
    let text = r#"{"start_id":"doc1","edges":[["doc1","doc2",0.5]],"nodes":{"doc1":{"pos":[1.5,-2.0]}}}"#;
    let snapshot = graph(text);
    assert_eq!(snapshot.as_value(), &value(text));
    let copy = snapshot.clone();
    assert_eq!(copy, snapshot);
    assert_eq!(copy.into_value(), value(text));
    assert_eq!(snapshot.into_value(), value(text));
}

#[test]
fn response_clone_is_equal() {
    let response = decode(r#"{"status":"OLD_GRAPH","graph_json":{"start_id":"doc1"},"progress":0.5}"#)
        .unwrap();
    assert_eq!(response.clone(), response);
    let bare = decode(r#"{"status":"QUEUED"}"#).unwrap();
    assert_eq!(bare.clone(), bare);
}
