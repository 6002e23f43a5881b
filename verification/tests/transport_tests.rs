use dstack_backend::inventory::{DStackResponse, GpuInfo};
use dstack_backend::json::parse;
use dstack_backend::transport::{
    probe_request, read_inventory, read_probe_reply, status_is_success, DStackConnection,
    ProbeReply, ProbeRequest, TransportError,
};

const BODY: &[u8] = br#"{"gpus":[{"slot":"0","product_id":"X","description":"NVIDIA H100","is_free":true}],"allow_attach_all":true}"#;

fn expected() -> DStackResponse {
    DStackResponse {
        gpus: vec![GpuInfo {
            slot: "0".to_string(),
            product_id: "X".to_string(),
            description: "NVIDIA H100".to_string(),
            is_free: true,
        }],
        allow_attach_all: true,
    }
}

#[test]
fn connection_is_selected_by_prefix() {
    assert_eq!(
        DStackConnection::from_config("unix:///var/run/dstack.sock"),
        DStackConnection::UnixSocket { socket_path: "/var/run/dstack.sock".to_string() }
    );
    assert_eq!(
        DStackConnection::from_config("http://localhost:19060"),
        DStackConnection::Http { url: "http://localhost:19060".to_string() }
    );
    assert_eq!(
        DStackConnection::from_config("unix://"),
        DStackConnection::UnixSocket { socket_path: "".to_string() }
    );
    assert_eq!(
        DStackConnection::from_config("UNIX://x"),
        DStackConnection::Http { url: "UNIX://x".to_string() }
    );
    assert_eq!(DStackConnection::from_config(""), DStackConnection::Http { url: "".to_string() });
}

#[test]
fn probe_requests() {
    let http = DStackConnection::Http { url: "http://localhost:19060".to_string() };
    assert_eq!(
        probe_request(&http),
        ProbeRequest::HttpGet { url: "http://localhost:19060/prpc/ListGpus?json".to_string() }
    );
    let unix = DStackConnection::UnixSocket { socket_path: "/run/d.sock".to_string() };
    assert_eq!(
        probe_request(&unix),
        ProbeRequest::UnixGet {
            socket_path: "/run/d.sock".to_string(),
            path: "/prpc/ListGpus?json".to_string(),
            host: "127.0.0.1".to_string(),
        }
    );
}

#[test]
fn success_statuses() {
    assert!(!status_is_success(199));
    assert!(status_is_success(200));
    assert!(status_is_success(201));
    assert!(status_is_success(299));
    assert!(!status_is_success(300));
    assert!(!status_is_success(404));
    assert!(!status_is_success(503));
    assert!(!status_is_success(0));
}

#[test]
fn a_good_answer_gives_the_inventory() {
    let reply = ProbeReply::Answered { status: 200, body: BODY.to_vec() };
    assert_eq!(read_probe_reply(&reply), Ok(expected()));
}

#[test]
fn every_error_has_its_reply() {
    assert_eq!(
        read_probe_reply(&ProbeReply::RequestRejected { detail: "bad uri".to_string() }),
        Err(TransportError::RequestConstruction("bad uri".to_string()))
    );
    assert_eq!(
        read_probe_reply(&ProbeReply::Unreachable { detail: "refused".to_string() }),
        Err(TransportError::Connection("refused".to_string()))
    );
    assert_eq!(
        read_probe_reply(&ProbeReply::Answered { status: 503, body: BODY.to_vec() }),
        Err(TransportError::HttpStatus(503))
    );
    assert_eq!(
        read_probe_reply(&ProbeReply::Answered { status: 200, body: b"<html>".to_vec() }),
        Err(TransportError::DecodeFailure("body is not JSON".to_string()))
    );
    assert_eq!(
        read_probe_reply(&ProbeReply::Answered { status: 200, body: b"{\"gpus\":1}".to_vec() }),
        Err(TransportError::DecodeFailure("body is not an inventory".to_string()))
    );
    assert_eq!(
        read_probe_reply(&ProbeReply::BodyUnreadable { status: 200, detail: "cut".to_string() }),
        Err(TransportError::Connection("cut".to_string()))
    );
    assert_eq!(
        read_probe_reply(&ProbeReply::BodyUnreadable { status: 500, detail: "cut".to_string() }),
        Err(TransportError::HttpStatus(500))
    );
}

#[test]
fn status_is_looked_at_before_the_body() {
    let reply = ProbeReply::Answered { status: 404, body: b"not json".to_vec() };
    assert_eq!(read_probe_reply(&reply), Err(TransportError::HttpStatus(404)));
}

#[test]
fn read_inventory_from_a_document() {
    assert_eq!(read_inventory(parse(BODY)), Ok(expected()));
    assert_eq!(
        read_inventory(None),
        Err(TransportError::DecodeFailure("body is not JSON".to_string()))
    );
    assert_eq!(
        read_inventory(parse(b"[]")),
        Err(TransportError::DecodeFailure("body is not an inventory".to_string()))
    );
}

#[test]
fn error_messages() {
    assert_eq!(TransportError::HttpStatus(503).message(), "HTTP error: 503");
    assert_eq!(TransportError::HttpStatus(0).message(), "HTTP error: 0");
    assert_eq!(
        TransportError::Connection("connection refused".to_string()).message(),
        "Connection error: connection refused"
    );
    assert_eq!(
        TransportError::DecodeFailure("body is not JSON".to_string()).message(),
        "Parse error: body is not JSON"
    );
    assert_eq!(
        TransportError::RequestConstruction("bad uri".to_string()).message(),
        "Request error: bad uri"
    );
}
