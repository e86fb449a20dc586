use jsonrpsee::common::{Id, JsonValue, Output, Response, Success, Version};
use ws_transport::{
    connect_failure, ConnectionState, Frame, ReadError, ReaderAction, TransportError,
    WriterAction, WsTransportClient, POLL_MILLIS,
};

fn open_transport() -> WsTransportClient {
    let mut transport = WsTransportClient::new("ws://127.0.0.1:9944").unwrap();
    transport.established();
    transport
}

fn text(body: &str) -> Result<Frame, ReadError> {
    Ok(Frame::Text(body.to_string()))
}

fn is_retry(polled: &Result<Response, TransportError>) -> bool {
    matches!(polled, Err(TransportError::Retry))
}

#[test]
fn requests_are_written_in_the_order_of_submission() {
    let mut transport = open_transport();
    let bodies = ["first", "second", "third", "fourth"];
    for body in bodies {
        assert!(transport.send_request(body.to_string()).is_ok());
    }
    for body in bodies {
        assert_eq!(transport.writer_step(), WriterAction::Write(body.to_string()));
    }
    assert_eq!(transport.writer_step(), WriterAction::Sleep(5));
}

#[test]
fn submissions_and_writer_turns_may_interleave() {
    let mut transport = open_transport();
    transport.send_request("a".to_string()).unwrap();
    assert_eq!(transport.writer_step(), WriterAction::Write("a".to_string()));
    assert_eq!(transport.writer_step(), WriterAction::Sleep(5));
    transport.send_request("b".to_string()).unwrap();
    transport.send_request("c".to_string()).unwrap();
    assert_eq!(transport.writer_step(), WriterAction::Write("b".to_string()));
    transport.send_request("d".to_string()).unwrap();
    assert_eq!(transport.writer_step(), WriterAction::Write("c".to_string()));
    assert_eq!(transport.writer_step(), WriterAction::Write("d".to_string()));
    assert_eq!(transport.writer_step(), WriterAction::Sleep(5));
}

#[test]
fn an_idle_writer_waits_five_milliseconds() {
    let mut transport = open_transport();
    assert_eq!(POLL_MILLIS, 5);
    assert_eq!(transport.writer_step(), WriterAction::Sleep(POLL_MILLIS));
    assert_eq!(transport.writer_step(), WriterAction::Sleep(POLL_MILLIS));
}

#[test]
fn close_stops_writes() {
    let mut transport = open_transport();
    transport.send_request("before".to_string()).unwrap();
    transport.close();
    transport.send_request("after".to_string()).unwrap();
    assert_eq!(transport.writer_step(), WriterAction::Write("before".to_string()));
    assert_eq!(transport.writer_step(), WriterAction::Stop);
    assert_eq!(transport.writer_step(), WriterAction::Stop);
    transport.send_request("much later".to_string()).unwrap();
    assert_eq!(transport.writer_step(), WriterAction::Stop);
    assert_eq!(transport.writer_step(), WriterAction::Stop);
}

#[test]
fn close_on_an_empty_queue_stops_the_writer_at_once() {
    let mut transport = open_transport();
    transport.close();
    assert_eq!(transport.writer_step(), WriterAction::Stop);
}

#[test]
fn send_request_always_succeeds() {
    let mut transport = open_transport();
    assert!(transport.send_request(String::new()).is_ok());
    transport.close();
    assert!(transport.send_request("after close".to_string()).is_ok());
    assert_eq!(transport.writer_step(), WriterAction::Write(String::new()));
    assert_eq!(transport.writer_step(), WriterAction::Stop);
    assert!(transport.send_request("after the writer left".to_string()).is_ok());
}

#[test]
fn a_poll_without_a_frame_is_a_retry() {
    let mut transport = open_transport();
    for _ in 0..3 {
        assert!(is_retry(&transport.next_response()));
    }
    let error = transport.next_response().unwrap_err();
    assert!(error.is_retry());
}

#[test]
fn a_well_formed_response_is_decoded() {
    let mut transport = open_transport();
    let action = transport.reader_step(text(r#"{"jsonrpc":"2.0","result":1,"id":7}"#));
    assert_eq!(action, ReaderAction::Continue);
    let expected = Response::Single(Output::Success(Success {
        jsonrpc: Version::V2,
        result: JsonValue::from(1),
        id: Id::Num(7),
    }));
    assert_eq!(transport.next_response().unwrap(), expected);
    assert!(is_retry(&transport.next_response()));
}

#[test]
fn a_body_that_is_not_json_is_a_decode_error() {
    let mut transport = open_transport();
    assert_eq!(transport.reader_step(text("not-json")), ReaderAction::Continue);
    let polled = transport.next_response();
    assert!(matches!(polled, Err(TransportError::Decode(_))));
    assert!(!polled.unwrap_err().is_retry());
    assert!(is_retry(&transport.next_response()));
}

#[test]
fn json_that_is_no_response_is_a_decode_error() {
    let mut transport = open_transport();
    transport.reader_step(text(r#"{"jsonrpc":"2.0","method":"ping","id":1}"#));
    assert!(matches!(transport.next_response(), Err(TransportError::Decode(_))));
}

#[test]
fn a_closed_connection_ends_the_reader_and_polls_retry() {
    let mut transport = open_transport();
    assert_eq!(transport.reader_step(Err(ReadError::ConnectionClosed)), ReaderAction::Stop);
    for _ in 0..4 {
        assert!(is_retry(&transport.next_response()));
    }
    assert_eq!(transport.reader_step(text("{}")), ReaderAction::Stop);
    assert!(is_retry(&transport.next_response()));
}

#[test]
fn an_already_closed_connection_ends_the_reader() {
    let mut transport = open_transport();
    assert_eq!(transport.reader_step(Err(ReadError::AlreadyClosed)), ReaderAction::Stop);
    assert!(is_retry(&transport.next_response()));
}

#[test]
fn other_read_failures_are_dropped() {
    let mut transport = open_transport();
    let failures = [
        ReadError::Io,
        ReadError::Tls,
        ReadError::Capacity,
        ReadError::Protocol,
        ReadError::SendQueueFull,
        ReadError::Utf8,
        ReadError::Url,
        ReadError::Http,
        ReadError::HttpFormat,
    ];
    for failure in failures {
        assert!(!failure.terminal());
        assert_eq!(transport.reader_step(Err(failure)), ReaderAction::Continue);
        assert!(is_retry(&transport.next_response()));
    }
    assert!(ReadError::ConnectionClosed.terminal());
    assert!(ReadError::AlreadyClosed.terminal());
    assert_eq!(transport.state(), ConnectionState::Open);
}

#[test]
fn frames_reach_the_caller_in_the_order_of_arrival() {
    let mut transport = open_transport();
    for id in 1..=3u64 {
        let body = format!(r#"{{"jsonrpc":"2.0","result":"r{}","id":{}}}"#, id, id);
        assert_eq!(transport.reader_step(Ok(Frame::Text(body))), ReaderAction::Continue);
    }
    for id in 1..=3u64 {
        let expected = Response::Single(Output::Success(Success {
            jsonrpc: Version::V2,
            result: JsonValue::from(format!("r{}", id)),
            id: Id::Num(id),
        }));
        assert_eq!(transport.next_response().unwrap(), expected);
    }
    assert!(is_retry(&transport.next_response()));
}

#[test]
fn ping_is_written_and_pong_comes_back() {
    let mut transport = open_transport();
    let ping = r#"{"jsonrpc":"2.0","method":"ping","id":1}"#;
    assert!(transport.send_request(ping.to_string()).is_ok());
    assert_eq!(transport.writer_step(), WriterAction::Write(ping.to_string()));
    assert_eq!(transport.writer_step(), WriterAction::Sleep(5));
    assert!(is_retry(&transport.next_response()));
    let pong = r#"{"jsonrpc":"2.0","result":"pong","id":1}"#;
    assert_eq!(transport.reader_step(text(pong)), ReaderAction::Continue);
    let expected = Response::Single(Output::Success(Success {
        jsonrpc: Version::V2,
        result: JsonValue::from("pong"),
        id: Id::Num(1),
    }));
    assert_eq!(transport.next_response().unwrap(), expected);
}

#[test]
fn a_connection_passes_through_its_states_in_order() {
    let mut transport = WsTransportClient::new("wss://rpc.polkadot.io").unwrap();
    assert_eq!(transport.state(), ConnectionState::Connecting);
    transport.established();
    assert_eq!(transport.state(), ConnectionState::Open);
    transport.send_request("x".to_string()).unwrap();
    assert_eq!(transport.state(), ConnectionState::Open);
    transport.close();
    assert_eq!(transport.state(), ConnectionState::Closing);
    transport.established();
    assert_eq!(transport.state(), ConnectionState::Closing);
    assert_eq!(transport.writer_step(), WriterAction::Write("x".to_string()));
    assert_eq!(transport.writer_step(), WriterAction::Stop);
    assert_eq!(transport.state(), ConnectionState::Closing);
    assert_eq!(transport.reader_step(Err(ReadError::ConnectionClosed)), ReaderAction::Stop);
    assert_eq!(transport.state(), ConnectionState::Closed);
    transport.close();
    transport.established();
    assert_eq!(transport.state(), ConnectionState::Closed);
}

#[test]
fn a_reader_that_leaves_first_does_not_close_the_connection() {
    let mut transport = open_transport();
    assert_eq!(transport.reader_step(Err(ReadError::ConnectionClosed)), ReaderAction::Stop);
    assert_eq!(transport.state(), ConnectionState::Open);
    transport.close();
    assert_eq!(transport.state(), ConnectionState::Closing);
    assert_eq!(transport.writer_step(), WriterAction::Stop);
    assert_eq!(transport.state(), ConnectionState::Closed);
}

#[test]
fn new_keeps_the_url_that_was_parsed() {
    let transport = WsTransportClient::new("wss://rpc.polkadot.io").unwrap();
    assert_eq!(transport.endpoint().as_str(), "wss://rpc.polkadot.io/");
    assert_eq!(transport.endpoint().scheme(), "wss");
    let local = WsTransportClient::new("ws://127.0.0.1:9944/path?x=1").unwrap();
    assert_eq!(local.endpoint().port(), Some(9944));
    assert_eq!(local.endpoint().path(), "/path");
}

#[test]
fn new_rejects_what_is_no_url() {
    let rejected = WsTransportClient::new("rpc.polkadot.io");
    assert!(matches!(
        rejected,
        Err(TransportError::Connection(url::ParseError::RelativeUrlWithoutBase))
    ));
    assert!(matches!(
        WsTransportClient::new("ws://"),
        Err(TransportError::Connection(url::ParseError::EmptyHost))
    ));
    assert!(matches!(
        WsTransportClient::new("ws://host:99999"),
        Err(TransportError::Connection(url::ParseError::InvalidPort))
    ));
}

#[test]
fn from_parsed_takes_the_url_or_keeps_the_reason() {
    let endpoint = url::Url::parse("ws://localhost:80/rpc").unwrap();
    let transport = WsTransportClient::from_parsed(Ok(endpoint.clone())).unwrap();
    assert_eq!(transport.endpoint(), &endpoint);
    assert_eq!(transport.state(), ConnectionState::Connecting);
    assert!(matches!(
        WsTransportClient::from_parsed(Err(url::ParseError::InvalidIpv6Address)),
        Err(TransportError::Connection(url::ParseError::InvalidIpv6Address))
    ));
}

#[test]
fn with_endpoint_starts_with_empty_queues() {
    let endpoint = url::Url::parse("ws://localhost:80/rpc").unwrap();
    let mut transport = WsTransportClient::with_endpoint(endpoint.clone());
    assert_eq!(transport.endpoint(), &endpoint);
    assert_eq!(transport.state(), ConnectionState::Connecting);
    assert_eq!(transport.writer_step(), WriterAction::Sleep(5));
    assert!(is_retry(&transport.next_response()));
}

#[test]
fn connect_failure_names_the_url() {
    assert_eq!(
        connect_failure("wss://rpc.polkadot.io"),
        "Failed to connect to `wss://rpc.polkadot.io`"
    );
    assert_eq!(connect_failure(""), "Failed to connect to ``");
}
