use connectedpapers::response::status_is_success;
use connectedpapers::client::free_access_papers_in_value;
use connectedpapers::client::remaining_usages_in_value;
use connectedpapers::ApiRequest;
use connectedpapers::ClientError;
use connectedpapers::ConnectedPapersClient;
use connectedpapers::GraphPoll;
use connectedpapers::PollAction;
use connectedpapers::PollConfig;
use connectedpapers::TransportReply;

fn ok(body: &str) -> TransportReply {
    TransportReply::Response { status: 200, body: body.as_bytes().to_vec() }
}

fn client() -> ConnectedPapersClient {
    ConnectedPapersClient::build("secret-token", "http://localhost:8080")
}

#[test]
fn build_keeps_what_it_is_given() {
    let client = ConnectedPapersClient::build("secret-token", "http://localhost:8080");
    assert_eq!(client.access_token(), "secret-token");
    assert_eq!(client.server_addr(), "http://localhost:8080");
    assert_eq!(client.poll_config(), PollConfig::default());
}

#[test]
fn new_without_overrides_uses_the_defaults() {
    let client = ConnectedPapersClient::new(None, None);
    assert_eq!(client.access_token(), "TEST_TOKEN");
    assert_eq!(client.server_addr(), "https://api.connectedpapers.com");
    assert_eq!(client.poll_config(), PollConfig::default());
    assert_eq!(connectedpapers::client::DEFAULT_ACCESS_TOKEN, "TEST_TOKEN");
    assert_eq!(connectedpapers::client::DEFAULT_SERVER_ADDR, "https://api.connectedpapers.com");
}

#[test]
fn new_takes_each_override_on_its_own() {
    let client = ConnectedPapersClient::new(Some("key".to_string()), None);
    assert_eq!(client.access_token(), "key");
    assert_eq!(client.server_addr(), "https://api.connectedpapers.com");

    let client = ConnectedPapersClient::new(None, Some("http://127.0.0.1:9".to_string()));
    assert_eq!(client.access_token(), "TEST_TOKEN");
    assert_eq!(client.server_addr(), "http://127.0.0.1:9");

    let client = ConnectedPapersClient::new(Some(String::new()), Some(String::new()));
    assert_eq!(client.access_token(), "");
    assert_eq!(client.server_addr(), "");
}

#[test]
fn names_of_the_overrides_and_of_the_header() {
    assert_eq!(connectedpapers::client::SERVER_ADDR_VARIABLE, "CONNECTED_PAPERS_REST_API");
    assert_eq!(connectedpapers::client::ACCESS_TOKEN_VARIABLE, "CONNECTED_PAPERS_API_KEY");
    assert_eq!(connectedpapers::client::API_KEY_HEADER, "X-Api-Key");
}

#[test]
fn with_poll_config_changes_the_knobs_only() {
    let config = PollConfig { retry_budget: 9, poll_interval_ms: 10, error_backoff_ms: 20 };
    let client = client().with_poll_config(config);
    assert_eq!(client.poll_config(), config);
    assert_eq!(client.access_token(), "secret-token");
    assert_eq!(client.server_addr(), "http://localhost:8080");
    let poll = client.get_graph_async_iterator("p".to_string(), false, true);
    assert_eq!(poll.rules().config, config);
    assert_eq!(poll.retries_remaining(), 9);
}

#[test]
fn graph_url_holds_flag_and_paper() {
    assert_eq!(
        client().graph_url(false, "abc123"),
        "http://localhost:8080/papers-api/graph/0/abc123"
    );
    assert_eq!(
        client().graph_url(true, "abc123"),
        "http://localhost:8080/papers-api/graph/1/abc123"
    );
    assert_eq!(
        ConnectedPapersClient::new(None, None)
            .graph_url(true, "9397e7acd062245d37350f5c05faf56e9cfae0d6"),
        "https://api.connectedpapers.com/papers-api/graph/1/9397e7acd062245d37350f5c05faf56e9cfae0d6"
    );
    assert_eq!(client().graph_url(false, ""), "http://localhost:8080/papers-api/graph/0/");
}

#[test]
fn plain_requests_name_their_endpoints() {
    assert_eq!(
        client().remaining_usages_request(),
        ApiRequest {
            url: "http://localhost:8080/papers-api/remaining-usages".to_string(),
            api_key: "secret-token".to_string(),
        }
    );
    assert_eq!(
        client().free_access_papers_request(),
        ApiRequest {
            url: "http://localhost:8080/papers-api/free-access-papers".to_string(),
            api_key: "secret-token".to_string(),
        }
    );
}

#[test]
fn iterator_starts_as_asked() {
    let poll = client().get_graph_async_iterator("paper-a".to_string(), false, true);
    assert_eq!(poll.paper_id(), "paper-a");
    assert!(poll.rules().loop_until_fresh);
    assert_eq!(poll.rules().config, PollConfig::default());
    assert!(!poll.fresh_only());
    assert_eq!(poll.retries_remaining(), 3);
    assert_eq!(poll.next_action(), PollAction::Request { fresh_only: false });

    let poll = client().get_graph_async_iterator("paper-b".to_string(), true, false);
    assert_eq!(poll.paper_id(), "paper-b");
    assert!(!poll.rules().loop_until_fresh);
    assert_eq!(poll.next_action(), PollAction::Request { fresh_only: true });
}

#[test]
fn next_request_follows_the_poll() {
    let client = client();
    let mut poll: GraphPoll = client.get_graph_async_iterator("paper-a".to_string(), false, true);
    assert_eq!(
        client.next_request(&poll),
        Some(ApiRequest {
            url: "http://localhost:8080/papers-api/graph/0/paper-a".to_string(),
            api_key: "secret-token".to_string(),
        })
    );
    poll.on_reply(&ok(r#"{"status":"IN_PROGRESS"}"#));
    assert_eq!(client.next_request(&poll), None);
    poll.waited();
    assert_eq!(
        client.next_request(&poll),
        Some(ApiRequest {
            url: "http://localhost:8080/papers-api/graph/1/paper-a".to_string(),
            api_key: "secret-token".to_string(),
        })
    );
    poll.on_reply(&ok(r#"{"status":"FRESH_GRAPH"}"#));
    assert_eq!(client.next_request(&poll), None);
}

#[test]
fn success_is_two_hundred_to_two_ninety_nine() {
    assert!(!status_is_success(0));
    assert!(!status_is_success(100));
    assert!(!status_is_success(199));
    assert!(status_is_success(200));
    assert!(status_is_success(204));
    assert!(status_is_success(299));
    assert!(!status_is_success(300));
    assert!(!status_is_success(404));
    assert!(!status_is_success(500));
    assert!(!status_is_success(65535));
}

#[test]
fn remaining_usages_reads_the_integer() {
    assert_eq!(client().get_remaining_usages(&ok(r#"{"remaining_uses":42}"#)), Ok(42));
    assert_eq!(client().get_remaining_usages(&ok(r#"{"remaining_uses":0}"#)), Ok(0));
    assert_eq!(client().get_remaining_usages(&ok(r#"{"remaining_uses":-7}"#)), Ok(-7));
    assert_eq!(
        client().get_remaining_usages(&ok(r#"{"remaining_uses":2147483647}"#)),
        Ok(i32::MAX)
    );
    assert_eq!(
        client().get_remaining_usages(&ok(r#"{"other":1,"remaining_uses":5,"more":[6]}"#)),
        Ok(5)
    );
}

#[test]
fn remaining_usages_is_cut_to_32_bits() {
    assert_eq!(client().get_remaining_usages(&ok(r#"{"remaining_uses":4294967297}"#)), Ok(1));
    assert_eq!(
        client().get_remaining_usages(&ok(r#"{"remaining_uses":2147483648}"#)),
        Ok(i32::MIN)
    );
    assert_eq!(client().get_remaining_usages(&ok(r#"{"remaining_uses":4294967295}"#)), Ok(-1));
    assert_eq!(
        client().get_remaining_usages(&ok(r#"{"remaining_uses":-2147483649}"#)),
        Ok(i32::MAX)
    );
    assert_eq!(
        client().get_remaining_usages(&ok(r#"{"remaining_uses":9223372036854775807}"#)),
        Ok(-1)
    );
}

#[test]
fn remaining_usages_needs_an_integer_field() {
    for body in [
        "{}",
        r#"{"remaining":3}"#,
        r#"{"remaining_uses":"3"}"#,
        r#"{"remaining_uses":3.0}"#,
        r#"{"remaining_uses":3.5}"#,
        r#"{"remaining_uses":null}"#,
        r#"{"remaining_uses":[3]}"#,
        r#"{"remaining_uses":9223372036854775808}"#,
        r#"{"remaining_uses":18446744073709551615}"#,
        r#"{"data":{"remaining_uses":3}}"#,
        "[3]",
        "3",
        "null",
    ] {
        assert_eq!(client().get_remaining_usages(&ok(body)), Err(ClientError::BadField));
    }
}

#[test]
fn remaining_usages_accepts_every_success_status() {
    for status in [200u16, 201, 204, 250, 299] {
        let reply = TransportReply::Response { status, body: br#"{"remaining_uses":8}"#.to_vec() };
        assert_eq!(client().get_remaining_usages(&reply), Ok(8));
    }
}

#[test]
fn remaining_usages_refuses_every_other_status() {
    for status in [0u16, 100, 199, 300, 301, 401, 404, 500, 503] {
        let reply = TransportReply::Response { status, body: br#"{"remaining_uses":8}"#.to_vec() };
        assert_eq!(
            client().get_remaining_usages(&reply),
            Err(ClientError::BadHttpStatus(status))
        );
    }
}

#[test]
fn remaining_usages_reports_transport_and_decode_failures() {
    assert_eq!(
        client().get_remaining_usages(&TransportReply::Failed("dns".to_string())),
        Err(ClientError::TransportFailure("dns".to_string()))
    );
    assert_eq!(client().get_remaining_usages(&ok("")), Err(ClientError::DecodeFailure));
    assert_eq!(client().get_remaining_usages(&ok("{remaining_uses:1}")), Err(ClientError::DecodeFailure));
    let empty = TransportReply::Response { status: 204, body: Vec::new() };
    assert_eq!(client().get_remaining_usages(&empty), Err(ClientError::DecodeFailure));
}

#[test]
fn free_access_papers_lists_the_strings() {
    assert_eq!(
        client().get_free_access_papers(&ok(r#"{"papers":["doc1","doc2","doc3"]}"#)),
        Ok(vec!["doc1".to_string(), "doc2".to_string(), "doc3".to_string()])
    );
    assert_eq!(client().get_free_access_papers(&ok(r#"{"papers":[]}"#)), Ok(Vec::new()));
    assert_eq!(
        client().get_free_access_papers(&ok(r#"{"papers":["doc1","doc1",""]}"#)),
        Ok(vec!["doc1".to_string(), "doc1".to_string(), String::new()])
    );
}

#[test]
fn free_access_papers_passes_over_what_is_no_string() {
    assert_eq!(
        client().get_free_access_papers(&ok(
            r#"{"papers":[1,"doc1",null,["doc2"],"doc3",{"id":"doc4"},true,"doc5",2.5]}"#
        )),
        Ok(vec!["doc1".to_string(), "doc3".to_string(), "doc5".to_string()])
    );
    assert_eq!(
        client().get_free_access_papers(&ok(r#"{"papers":[1,2,3]}"#)),
        Ok(Vec::new())
    );
}

#[test]
fn free_access_papers_needs_an_array_field() {
    for body in [
        "{}",
        r#"{"papers":null}"#,
        r#"{"papers":"doc1"}"#,
        r#"{"papers":{"0":"doc1"}}"#,
        r#"{"papers":3}"#,
        r#"{"Papers":["doc1"]}"#,
        r#"["doc1"]"#,
        "null",
    ] {
        assert_eq!(client().get_free_access_papers(&ok(body)), Err(ClientError::BadField));
    }
}

#[test]
fn free_access_papers_reports_status_transport_and_decode_failures() {
    let missing = TransportReply::Response { status: 404, body: br#"{"papers":["doc1"]}"#.to_vec() };
    assert_eq!(client().get_free_access_papers(&missing), Err(ClientError::BadHttpStatus(404)));
    let accepted = TransportReply::Response { status: 202, body: br#"{"papers":["doc1"]}"#.to_vec() };
    assert_eq!(client().get_free_access_papers(&accepted), Ok(vec!["doc1".to_string()]));
    assert_eq!(
        client().get_free_access_papers(&TransportReply::Failed("timeout".to_string())),
        Err(ClientError::TransportFailure("timeout".to_string()))
    );
    assert_eq!(client().get_free_access_papers(&ok("[")), Err(ClientError::DecodeFailure));
}

#[test]
fn field_readers_work_on_parsed_bodies() {
    let body: serde_json::Value =
        serde_json::from_str(r#"{"remaining_uses":12,"papers":["a",7,"b"]}"#).unwrap();
    assert_eq!(remaining_usages_in_value(&body), Ok(12));
    assert_eq!(
        free_access_papers_in_value(&body),
        Ok(vec!["a".to_string(), "b".to_string()])
    );
    let other: serde_json::Value = serde_json::from_str(r#"{"remaining_uses":"x"}"#).unwrap();
    assert_eq!(remaining_usages_in_value(&other), Err(ClientError::BadField));
    assert_eq!(free_access_papers_in_value(&other), Err(ClientError::BadField));
}
