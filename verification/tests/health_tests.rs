use dstack_backend::health::{
    check_dstack_health, health_handler, health_report, metadata_json, AppState, BackendInfo,
    DephyWorkerRespondedStatus,
};
use dstack_backend::inventory::{DStackResponse, GpuInfo};
use dstack_backend::json::{parse_text, Json};
use dstack_backend::transport::{DStackConnection, ProbeReply, TransportError};

const BODY: &[u8] = br#"{"gpus":[{"slot":"0","product_id":"X","description":"NVIDIA H100","is_free":true}],"allow_attach_all":true}"#;

fn state(local_ip: Option<&str>) -> AppState {
    AppState {
        connection: DStackConnection::Http { url: "http://localhost:19060".to_string() },
        nostr_pubkey: "abcdef".to_string(),
        local_ip: local_ip.map(|s| s.to_string()),
    }
}

fn one_gpu() -> DStackResponse {
    DStackResponse {
        gpus: vec![GpuInfo {
            slot: "0".to_string(),
            product_id: "X".to_string(),
            description: "NVIDIA H100".to_string(),
            is_free: true,
        }],
        allow_attach_all: true,
    }
}

#[test]
fn an_answering_backend_is_available() {
    let report = check_dstack_health(
        &state(Some("10.0.0.7")),
        &ProbeReply::Answered { status: 200, body: BODY.to_vec() },
    );
    assert_eq!(report.version, "1.0.0");
    assert_eq!(report.topic, "dstack-gpu-monitor");
    assert_eq!(report.status, DephyWorkerRespondedStatus::Available);
    assert_eq!(report.pubkeys.to_vec(), vec!["abcdef".to_string()]);
    assert_eq!(report.ip_address, Some("10.0.0.7".to_string()));
    let metadata = report.metadata.clone().unwrap();
    assert!(metadata.contains("\"gpu_count\":1"));
    assert_eq!(
        metadata,
        r#"{"allow_attach_all":true,"gpu_count":1,"gpus":[{"description":"NVIDIA H100","is_free":true,"product_id":"X","slot":"0"}]}"#
    );
    assert_eq!(health_handler(&report), 200);
}

#[test]
fn a_failing_backend_is_unavailable() {
    let report = check_dstack_health(
        &state(None),
        &ProbeReply::Answered { status: 503, body: Vec::new() },
    );
    assert_eq!(report.status, DephyWorkerRespondedStatus::Unavailable);
    assert_eq!(report.metadata, Some("HTTP error: 503".to_string()));
    assert_eq!(report.ip_address, None);
    assert_eq!(report.pubkeys.len(), 1);
    assert!(report.pubkeys.contains("abcdef"));
    assert_eq!(health_handler(&report), 503);
}

#[test]
fn every_error_is_told_in_the_metadata() {
    let errors = [
        (TransportError::Connection("refused".to_string()), "Connection error: refused"),
        (TransportError::HttpStatus(404), "HTTP error: 404"),
        (TransportError::DecodeFailure("body is not JSON".to_string()), "Parse error: body is not JSON"),
        (TransportError::RequestConstruction("uri".to_string()), "Request error: uri"),
    ];
    for (error, text) in errors {
        let report = health_report(&state(None), &Err(error));
        assert_eq!(report.status, DephyWorkerRespondedStatus::Unavailable);
        assert_eq!(report.metadata, Some(text.to_string()));
        assert!(!report.pubkeys.is_empty());
    }
}

#[test]
fn the_identities_are_never_empty() {
    for outcome in [Ok(one_gpu()), Err(TransportError::HttpStatus(500))] {
        let report = health_report(&state(None), &outcome);
        assert!(!report.pubkeys.is_empty());
        assert_eq!(report.pubkeys.len(), 1);
        assert!(report.pubkeys.contains("abcdef"));
    }
}

#[test]
fn metadata_counts_the_gpus() {
    let none = DStackResponse { gpus: vec![], allow_attach_all: false };
    assert_eq!(metadata_json(&none).member("gpu_count"), Some(&Json::Unsigned(0)));
    assert_eq!(
        metadata_json(&none).to_text(),
        r#"{"allow_attach_all":false,"gpu_count":0,"gpus":[]}"#
    );
    let mut three = one_gpu();
    three.gpus.push(three.gpus[0].clone());
    three.gpus.push(three.gpus[0].clone());
    assert_eq!(metadata_json(&three).member("gpu_count"), Some(&Json::Unsigned(3)));
}

#[test]
fn status_words_and_numbers() {
    assert_eq!(DephyWorkerRespondedStatus::Available.label(), "available");
    assert_eq!(DephyWorkerRespondedStatus::Unavailable.label(), "unavailable");
    assert_eq!(
        DephyWorkerRespondedStatus::from_label("available"),
        Some(DephyWorkerRespondedStatus::Available)
    );
    assert_eq!(
        DephyWorkerRespondedStatus::from_label("unavailable"),
        Some(DephyWorkerRespondedStatus::Unavailable)
    );
    assert_eq!(DephyWorkerRespondedStatus::from_label("Available"), None);
    assert_eq!(DephyWorkerRespondedStatus::Available.name(), "Available");
    assert_eq!(DephyWorkerRespondedStatus::Unavailable.name(), "Unavailable");
    assert_eq!(
        DephyWorkerRespondedStatus::from_name("Available"),
        Some(DephyWorkerRespondedStatus::Available)
    );
    assert_eq!(
        DephyWorkerRespondedStatus::from_name("Unavailable"),
        Some(DephyWorkerRespondedStatus::Unavailable)
    );
    assert_eq!(DephyWorkerRespondedStatus::from_name("available"), None);
    assert_eq!(DephyWorkerRespondedStatus::Available.code(), 1);
    assert_eq!(DephyWorkerRespondedStatus::Unavailable.code(), 2);
    assert_eq!(
        DephyWorkerRespondedStatus::from_code(1),
        Some(DephyWorkerRespondedStatus::Available)
    );
    assert_eq!(
        DephyWorkerRespondedStatus::from_code(2),
        Some(DephyWorkerRespondedStatus::Unavailable)
    );
    assert_eq!(DephyWorkerRespondedStatus::from_code(0), None);
    assert_eq!(DephyWorkerRespondedStatus::from_code(3), None);
}

#[test]
fn report_round_trip_through_text() {
    let reports = [
        health_report(&state(Some("10.0.0.7")), &Ok(one_gpu())),
        health_report(&state(None), &Err(TransportError::HttpStatus(503))),
    ];
    for report in reports {
        let text = report.to_json().to_text();
        let read = BackendInfo::from_json(&parse_text(&text).unwrap()).unwrap();
        assert_eq!(read, report);
    }
}

#[test]
fn report_wire_format() {
    let report = health_report(&state(None), &Err(TransportError::HttpStatus(503)));
    assert_eq!(
        report.to_json().to_text(),
        r#"{"ip_address":null,"metadata":"HTTP error: 503","pubkeys":["abcdef"],"status":"unavailable","topic":"dstack-gpu-monitor","version":"1.0.0"}"#
    );
}

#[test]
fn report_is_read_with_missing_optional_members() {
    let doc = parse_text(
        r#"{"version":"1","topic":"t","pubkeys":["a","b","a"],"status":"available"}"#,
    )
    .unwrap();
    let report = BackendInfo::from_json(&doc).unwrap();
    assert_eq!(report.metadata, None);
    assert_eq!(report.ip_address, None);
    assert_eq!(report.pubkeys.len(), 2);
    assert_eq!(report.status, DephyWorkerRespondedStatus::Available);
}

#[test]
fn malformed_reports_are_rejected() {
    let rejected = [
        r#"{}"#,
        r#"{"topic":"t","pubkeys":[],"status":"available"}"#,
        r#"{"version":"1","pubkeys":[],"status":"available"}"#,
        r#"{"version":"1","topic":"t","status":"available"}"#,
        r#"{"version":"1","topic":"t","pubkeys":[1],"status":"available"}"#,
        r#"{"version":"1","topic":"t","pubkeys":[],"status":"up"}"#,
        r#"{"version":"1","topic":"t","pubkeys":[],"status":"available","metadata":1}"#,
        r#"{"version":"1","topic":"t","pubkeys":[],"status":"available","ip_address":[]}"#,
    ];
    for text in rejected {
        assert_eq!(BackendInfo::from_json(&parse_text(text).unwrap()), None, "{}", text);
    }
}
