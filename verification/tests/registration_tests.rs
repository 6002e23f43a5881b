use dstack_backend::json::parse;
use dstack_backend::registration::{
    read_check_reply, read_permission, step, CheckVerdict, RegistrationAction,
    RegistrationConfig, RegistrationEvent, RegistrationState, RegistryReply,
};

fn config() -> RegistrationConfig {
    RegistrationConfig {
        registry_url: "http://registry:9000".to_string(),
        pubkey: "abc123".to_string(),
        owner: "0xd8dA6BF26964aF9D7eEd9e03E53415D37aA96045".to_string(),
        node_type: "node-H100x1".to_string(),
    }
}

fn answered(status: u16, body: &str) -> RegistryReply {
    RegistryReply::Answered { status, body: body.as_bytes().to_vec() }
}

fn unreachable() -> RegistryReply {
    RegistryReply::Unreachable { detail: "connection refused".to_string() }
}

/// Runs the workflow with the given replies; returns the final state and the actions.
fn run(replies: Vec<RegistryReply>) -> (RegistrationState, Vec<RegistrationAction>) {
    let mut actions = Vec::new();
    let (mut state, action) = step(&config(), RegistrationState::Unknown, RegistrationEvent::Start);
    actions.push(action);
    for reply in replies {
        let (next, action) = step(&config(), state, RegistrationEvent::Reply(reply));
        state = next;
        actions.push(action);
    }
    (state, actions)
}

fn posts(actions: &[RegistrationAction]) -> usize {
    actions.iter().filter(|a| matches!(a, RegistrationAction::Post { .. })).count()
}

fn the_post() -> RegistrationAction {
    RegistrationAction::Post {
        url: "http://registry:9000/workers".to_string(),
        body: r#"{"node_type":"node-H100x1","owner":"0xd8dA6BF26964aF9D7eEd9e03E53415D37aA96045","pubkey":"abc123"}"#.to_string(),
    }
}

#[test]
fn the_workflow_starts_with_the_check() {
    let (state, actions) = run(vec![]);
    assert_eq!(state, RegistrationState::Checking);
    assert_eq!(
        actions,
        vec![RegistrationAction::Get { url: "http://registry:9000/permissions/abc123".to_string() }]
    );
}

#[test]
fn allow_all_sends_no_registration() {
    let (state, actions) = run(vec![answered(200, r#"{"write":{"mode":"AllowAll"}}"#)]);
    assert_eq!(state, RegistrationState::AlreadyRegistered);
    assert_eq!(posts(&actions), 0);
    assert_eq!(actions[1], RegistrationAction::Proceed);
}

#[test]
fn another_mode_sends_one_registration() {
    let (state, actions) = run(vec![answered(200, r#"{"write":{"mode":"DenyAll"}}"#)]);
    assert_eq!(state, RegistrationState::Registering);
    assert_eq!(posts(&actions), 1);
    assert_eq!(actions[1], the_post());
}

#[test]
fn a_failed_check_still_registers() {
    let (state, actions) = run(vec![unreachable()]);
    assert_eq!(state, RegistrationState::Registering);
    assert_eq!(posts(&actions), 1);
    assert_eq!(actions[1], the_post());
}

#[test]
fn check_404_then_201_completes() {
    let (state, actions) = run(vec![answered(404, "not found"), answered(201, "{}")]);
    assert_eq!(state, RegistrationState::Done);
    assert_eq!(posts(&actions), 1);
    assert_eq!(actions[1], the_post());
    assert_eq!(actions[2], RegistrationAction::Proceed);
    assert!(!actions.iter().any(|a| matches!(a, RegistrationAction::Exit { .. })));
}

#[test]
fn registration_500_is_fatal() {
    let (state, actions) = run(vec![answered(404, ""), answered(500, "boom")]);
    assert_eq!(state, RegistrationState::FatalFailure);
    assert_eq!(
        actions[2],
        RegistrationAction::Exit { exit_code: 1, failure: answered(500, "boom") }
    );
    match &actions[2] {
        RegistrationAction::Exit { exit_code, .. } => assert_ne!(*exit_code, 0),
        other => panic!("unexpected {:?}", other),
    }
}

#[test]
fn an_unreachable_registry_at_registration_is_fatal() {
    let (state, actions) = run(vec![unreachable(), unreachable()]);
    assert_eq!(state, RegistrationState::FatalFailure);
    assert_eq!(posts(&actions), 1);
    assert_eq!(actions[2], RegistrationAction::Exit { exit_code: 1, failure: unreachable() });
}

#[test]
fn nothing_follows_the_end() {
    for replies in [
        vec![answered(200, r#"{"write":{"mode":"AllowAll"}}"#), answered(200, "{}"), unreachable()],
        vec![unreachable(), answered(200, "{}"), answered(200, "{}"), unreachable()],
        vec![unreachable(), answered(500, ""), answered(200, "{}")],
    ] {
        let (_, actions) = run(replies);
        assert!(posts(&actions) <= 1);
        assert_eq!(actions.last(), Some(&RegistrationAction::Nothing));
    }
}

#[test]
fn events_out_of_place_change_nothing() {
    let (state, action) =
        step(&config(), RegistrationState::Unknown, RegistrationEvent::Reply(unreachable()));
    assert_eq!((state, action), (RegistrationState::Unknown, RegistrationAction::Nothing));
    for state in [
        RegistrationState::Checking,
        RegistrationState::AlreadyRegistered,
        RegistrationState::Registering,
        RegistrationState::Done,
        RegistrationState::FatalFailure,
    ] {
        let (next, action) = step(&config(), state, RegistrationEvent::Start);
        assert_eq!((next, action), (state, RegistrationAction::Nothing));
    }
}

#[test]
fn check_verdicts() {
    assert_eq!(read_check_reply(&unreachable()), CheckVerdict::CheckFailed);
    assert_eq!(
        read_check_reply(&answered(200, r#"{"write":{"mode":"AllowAll"}}"#)),
        CheckVerdict::AlreadyRegistered
    );
    assert_eq!(
        read_check_reply(&answered(204, r#"{"write":{"mode":"AllowAll"},"read":{}}"#)),
        CheckVerdict::AlreadyRegistered
    );
    assert_eq!(
        read_check_reply(&answered(404, r#"{"write":{"mode":"AllowAll"}}"#)),
        CheckVerdict::NeedsRegistration
    );
    assert_eq!(read_check_reply(&answered(200, "not json")), CheckVerdict::NeedsRegistration);
    assert_eq!(read_check_reply(&answered(200, "{}")), CheckVerdict::NeedsRegistration);
    assert_eq!(
        read_check_reply(&answered(200, r#"{"write":"AllowAll"}"#)),
        CheckVerdict::NeedsRegistration
    );
    assert_eq!(
        read_check_reply(&answered(200, r#"{"write":{"mode":"allowall"}}"#)),
        CheckVerdict::NeedsRegistration
    );
    assert_eq!(
        read_check_reply(&answered(200, r#"{"write":{"mode":1}}"#)),
        CheckVerdict::NeedsRegistration
    );
}

#[test]
fn permission_from_a_document() {
    assert_eq!(read_permission(&None), CheckVerdict::NeedsRegistration);
    assert_eq!(
        read_permission(&parse(br#"{"write":{"mode":"AllowAll"}}"#)),
        CheckVerdict::AlreadyRegistered
    );
    assert_eq!(read_permission(&parse(b"[]")), CheckVerdict::NeedsRegistration);
}

#[test]
fn addresses_and_body() {
    assert_eq!(config().check_url(), "http://registry:9000/permissions/abc123");
    assert_eq!(config().register_url(), "http://registry:9000/workers");
    assert_eq!(
        config().body().to_text(),
        r#"{"node_type":"node-H100x1","owner":"0xd8dA6BF26964aF9D7eEd9e03E53415D37aA96045","pubkey":"abc123"}"#
    );
}
