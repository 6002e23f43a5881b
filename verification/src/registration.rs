//! Registering the node with the fleet registry: check first, register where the
//! check does not confirm a registration. The caller sends the requests and hands the
//! replies back; the workflow decides what comes next.

use crate::json::{
    document_view, json_document, json_text, lemma_object_view, object_view, parse, Json,
    JsonModel,
};
use crate::text::same_text;
use crate::transport::{is_success_status, status_is_success};
use vstd::prelude::*;

verus! {

/// What the workflow registers, and where.
#[derive(Debug, Clone, PartialEq)]
pub struct RegistrationConfig {
    pub registry_url: String,
    pub pubkey: String,
    pub owner: String,
    pub node_type: String,
}

/// What a [`RegistrationConfig`] holds.
pub struct RegistrationConfigView {
    pub registry_url: Seq<char>,
    pub pubkey: Seq<char>,
    pub owner: Seq<char>,
    pub node_type: Seq<char>,
}

impl View for RegistrationConfig {
    type V = RegistrationConfigView;

    open spec fn view(&self) -> RegistrationConfigView {
        RegistrationConfigView {
            registry_url: self.registry_url@,
            pubkey: self.pubkey@,
            owner: self.owner@,
            node_type: self.node_type@,
        }
    }
}

/// Where the workflow stands.
#[derive(Copy, Clone, PartialEq, Eq, Structural, Debug)]
pub enum RegistrationState {
    /// Nothing was asked yet.
    Unknown,
    /// The check was sent; its reply is due.
    Checking,
    /// The check confirmed a registration. The workflow has ended well.
    AlreadyRegistered,
    /// The registration was sent; its reply is due.
    Registering,
    /// The registry took the registration. The workflow has ended well.
    Done,
    /// The registry did not take the registration. The process must end.
    FatalFailure,
}

/// What the reply to the check says.
#[derive(Copy, Clone, PartialEq, Eq, Structural, Debug)]
pub enum CheckVerdict {
    /// The registry allows the node to write.
    AlreadyRegistered,
    /// The registry answered, and did not confirm a registration.
    NeedsRegistration,
    /// No answer arrived.
    CheckFailed,
}

/// What came back from the registry.
#[derive(Debug, Clone, PartialEq)]
pub enum RegistryReply {
    /// No response arrived.
    Unreachable { detail: String },
    /// A response arrived.
    Answered { status: u16, body: Vec<u8> },
}

/// What a [`RegistryReply`] holds.
pub enum RegistryReplyView {
    Unreachable { detail: Seq<char> },
    Answered { status: u16, body: Seq<u8> },
}

impl View for RegistryReply {
    type V = RegistryReplyView;

    open spec fn view(&self) -> RegistryReplyView {
        match self {
            RegistryReply::Unreachable { detail } => RegistryReplyView::Unreachable {
                detail: detail@,
            },
            RegistryReply::Answered { status, body } => RegistryReplyView::Answered {
                status: *status,
                body: body@,
            },
        }
    }
}

/// What happened.
#[derive(Debug, Clone, PartialEq)]
pub enum RegistrationEvent {
    /// The workflow is to begin.
    Start,
    /// The reply to the request that was sent last.
    Reply(RegistryReply),
}

/// What a [`RegistrationEvent`] holds.
pub enum RegistrationEventView {
    Start,
    Reply(RegistryReplyView),
}

impl View for RegistrationEvent {
    type V = RegistrationEventView;

    open spec fn view(&self) -> RegistrationEventView {
        match self {
            RegistrationEvent::Start => RegistrationEventView::Start,
            RegistrationEvent::Reply(reply) => RegistrationEventView::Reply(reply@),
        }
    }
}

/// What the caller does next.
#[derive(Debug, Clone, PartialEq)]
pub enum RegistrationAction {
    /// Send a GET of `url` and hand back the reply.
    Get { url: String },
    /// Send a POST of the JSON text `body` to `url` and hand back the reply.
    Post { url: String, body: String },
    /// Go on to serve: the node is registered.
    Proceed,
    /// Log `failure` and end the process with `exit_code`.
    Exit { exit_code: i32, failure: RegistryReply },
    /// Nothing: the event does not belong to the state.
    Nothing,
}

/// What a [`RegistrationAction`] holds.
pub enum RegistrationActionView {
    Get { url: Seq<char> },
    Post { url: Seq<char>, body: Seq<char> },
    Proceed,
    Exit { exit_code: i32, failure: RegistryReplyView },
    Nothing,
}

impl View for RegistrationAction {
    type V = RegistrationActionView;

    open spec fn view(&self) -> RegistrationActionView {
        match self {
            RegistrationAction::Get { url } => RegistrationActionView::Get { url: url@ },
            RegistrationAction::Post { url, body } => RegistrationActionView::Post {
                url: url@,
                body: body@,
            },
            RegistrationAction::Proceed => RegistrationActionView::Proceed,
            RegistrationAction::Exit { exit_code, failure } => RegistrationActionView::Exit {
                exit_code: *exit_code,
                failure: failure@,
            },
            RegistrationAction::Nothing => RegistrationActionView::Nothing,
        }
    }
}

/// The address of the check for a public key.
pub open spec fn check_url(config: RegistrationConfigView) -> Seq<char> {
    config.registry_url + "/permissions/"@ + config.pubkey
}

/// The address of the registration.
pub open spec fn register_url(config: RegistrationConfigView) -> Seq<char> {
    config.registry_url + "/workers"@
}

/// The JSON document that registers the node.
pub open spec fn registration_body(config: RegistrationConfigView) -> JsonModel {
    JsonModel::Object(
        seq![
            ("pubkey"@, JsonModel::Text(config.pubkey)),
            ("owner"@, JsonModel::Text(config.owner)),
            ("node_type"@, JsonModel::Text(config.node_type)),
        ],
    )
}

/// Whether a JSON document grants writing to all: an object whose member `write` is
/// an object whose member `mode` is the string `AllowAll`.
pub open spec fn grants_write(doc: JsonModel) -> bool {
    match doc.member("write"@) {
        Some(write) => write.text_member("mode"@) == Some("AllowAll"@),
        None => false,
    }
}

/// What a success response to the check says, by the JSON document of its body, or
/// for a body that is no JSON at all.
pub open spec fn permission_verdict(doc: Option<JsonModel>) -> CheckVerdict {
    match doc {
        Some(d) => if grants_write(d) {
            CheckVerdict::AlreadyRegistered
        } else {
            CheckVerdict::NeedsRegistration
        },
        None => CheckVerdict::NeedsRegistration,
    }
}

/// What the reply to the check says.
pub open spec fn check_verdict(reply: RegistryReplyView) -> CheckVerdict {
    match reply {
        RegistryReplyView::Unreachable { .. } => CheckVerdict::CheckFailed,
        RegistryReplyView::Answered { status, body } => if is_success_status(status) {
            permission_verdict(json_document(body))
        } else {
            CheckVerdict::NeedsRegistration
        },
    }
}

/// Whether the reply to the registration says that the registry took it.
pub open spec fn registration_accepted(reply: RegistryReplyView) -> bool {
    reply matches RegistryReplyView::Answered { status, .. } && is_success_status(status)
}

/// The state and the action that follow an event.
pub open spec fn registration_step(
    config: RegistrationConfigView,
    state: RegistrationState,
    event: RegistrationEventView,
) -> (RegistrationState, RegistrationActionView) {
    match (state, event) {
        (RegistrationState::Unknown, RegistrationEventView::Start) => (
            RegistrationState::Checking,
            RegistrationActionView::Get { url: check_url(config) },
        ),
        (RegistrationState::Checking, RegistrationEventView::Reply(reply)) => if check_verdict(
            reply,
        ) == CheckVerdict::AlreadyRegistered {
            (RegistrationState::AlreadyRegistered, RegistrationActionView::Proceed)
        } else {
            (
                RegistrationState::Registering,
                RegistrationActionView::Post {
                    url: register_url(config),
                    body: json_text(registration_body(config)),
                },
            )
        },
        (RegistrationState::Registering, RegistrationEventView::Reply(reply)) => if 
            registration_accepted(reply) {
            (RegistrationState::Done, RegistrationActionView::Proceed)
        } else {
            (
                RegistrationState::FatalFailure,
                RegistrationActionView::Exit { exit_code: 1, failure: reply },
            )
        },
        _ => (state, RegistrationActionView::Nothing),
    }
}

/// Says what a success response to the check says, from the JSON document of its body.
pub fn read_permission(doc: &Option<Json>) -> (verdict: CheckVerdict)
    ensures
        verdict == permission_verdict(document_view(*doc)),
{
    match doc {
        Some(d) => match d.member("write") {
            Some(write) => match write.text_member("mode") {
                Some(mode) => if same_text(mode.as_str(), "AllowAll") {
                    CheckVerdict::AlreadyRegistered
                } else {
                    CheckVerdict::NeedsRegistration
                },
                None => CheckVerdict::NeedsRegistration,
            },
            None => CheckVerdict::NeedsRegistration,
        },
        None => CheckVerdict::NeedsRegistration,
    }
}

/// Says what the reply to the check says.
pub fn read_check_reply(reply: &RegistryReply) -> (verdict: CheckVerdict)
    ensures
        verdict == check_verdict(reply@),
{
    match reply {
        RegistryReply::Unreachable { .. } => CheckVerdict::CheckFailed,
        RegistryReply::Answered { status, body } => {
            if status_is_success(*status) {
                let doc = parse(body.as_slice());
                read_permission(&doc)
            } else {
                CheckVerdict::NeedsRegistration
            }
        },
    }
}

impl RegistrationConfig {
    /// The address of the check.
    pub fn check_url(&self) -> (url: String)
        ensures
            url@ == check_url(self@),
    {
        let mut url = self.registry_url.clone();
        url.append("/permissions/");
        url.append(self.pubkey.as_str());
        url
    }

    /// The address of the registration.
    pub fn register_url(&self) -> (url: String)
        ensures
            url@ == register_url(self@),
    {
        let mut url = self.registry_url.clone();
        url.append("/workers");
        url
    }

    /// The JSON document that registers the node.
    pub fn body(&self) -> (doc: Json)
        ensures
            doc@ == registration_body(self@),
    {
        let members = vec![
            (String::from_str("pubkey"), Json::Text(self.pubkey.clone())),
            (String::from_str("owner"), Json::Text(self.owner.clone())),
            (String::from_str("node_type"), Json::Text(self.node_type.clone())),
        ];
        proof {
            lemma_object_view(members);
            assert(object_view(members@) =~= registration_body(self@)->Object_0);
        }
        Json::Object(members)
    }
}

/// Takes an event and says what comes next.
pub fn step(config: &RegistrationConfig, state: RegistrationState, event: RegistrationEvent) -> (next:
    (RegistrationState, RegistrationAction))
    ensures
        (next.0, next.1@) == registration_step(config@, state, event@),
{
    match (state, event) {
        (RegistrationState::Unknown, RegistrationEvent::Start) => (
            RegistrationState::Checking,
            RegistrationAction::Get { url: config.check_url() },
        ),
        (RegistrationState::Checking, RegistrationEvent::Reply(reply)) => {
            match read_check_reply(&reply) {
                CheckVerdict::AlreadyRegistered => (
                    RegistrationState::AlreadyRegistered,
                    RegistrationAction::Proceed,
                ),
                _ => (
                    RegistrationState::Registering,
                    RegistrationAction::Post {
                        url: config.register_url(),
                        body: config.body().to_text(),
                    },
                ),
            }
        },
        (RegistrationState::Registering, RegistrationEvent::Reply(reply)) => {
            let accepted = match &reply {
                RegistryReply::Answered { status, .. } => status_is_success(*status),
                RegistryReply::Unreachable { .. } => false,
            };
            if accepted {
                (RegistrationState::Done, RegistrationAction::Proceed)
            } else {
                (
                    RegistrationState::FatalFailure,
                    RegistrationAction::Exit { exit_code: 1, failure: reply },
                )
            }
        },
        (state, _) => (state, RegistrationAction::Nothing),
    }
}

/// The state after a run of events, and the actions that the workflow asked for, one
/// for each event.
pub open spec fn registration_run(
    config: RegistrationConfigView,
    state: RegistrationState,
    events: Seq<RegistrationEventView>,
) -> (RegistrationState, Seq<RegistrationActionView>)
    decreases events.len(),
{
    if events.len() == 0 {
        (state, Seq::empty())
    } else {
        let first = registration_step(config, state, events[0]);
        let rest = registration_run(config, first.0, events.drop_first());
        (rest.0, seq![first.1] + rest.1)
    }
}

/// The number of registrations among a list of actions.
pub open spec fn post_count(actions: Seq<RegistrationActionView>) -> nat
    decreases actions.len(),
{
    if actions.len() == 0 {
        0
    } else {
        post_count(actions.drop_first()) + if actions[0] is Post {
            1nat
        } else {
            0nat
        }
    }
}

/// Whether a state lies behind the check.
pub open spec fn past_check(state: RegistrationState) -> bool {
    state != RegistrationState::Unknown && state != RegistrationState::Checking
}

/// Behind the check the workflow sends no registration, whatever happens.
pub proof fn lemma_no_post_past_check(
    config: RegistrationConfigView,
    state: RegistrationState,
    events: Seq<RegistrationEventView>,
)
    requires
        past_check(state),
    ensures
        post_count(registration_run(config, state, events).1) == 0,
        past_check(registration_run(config, state, events).0),
    decreases events.len(),
{
    if events.len() > 0 {
        let first = registration_step(config, state, events[0]);
        lemma_no_post_past_check(config, first.0, events.drop_first());
        let rest = registration_run(config, first.0, events.drop_first());
        assert((seq![first.1] + rest.1).drop_first() =~= rest.1);
    }
}

/// After the start and the reply to the check the workflow has sent one registration
/// where the check did not confirm one, and none where it did; nothing that happens
/// later adds another.
pub proof fn lemma_posts_after_check(
    config: RegistrationConfigView,
    check: RegistryReplyView,
    later: Seq<RegistrationEventView>,
)
    ensures
        post_count(
            registration_run(
                config,
                RegistrationState::Unknown,
                seq![RegistrationEventView::Start, RegistrationEventView::Reply(check)] + later,
            ).1,
        ) == if check_verdict(check) == CheckVerdict::AlreadyRegistered {
            0nat
        } else {
            1nat
        },
        check_verdict(check) != CheckVerdict::AlreadyRegistered ==> registration_step(
            config,
            RegistrationState::Checking,
            RegistrationEventView::Reply(check),
        ) == (
            RegistrationState::Registering,
            RegistrationActionView::Post {
                url: register_url(config),
                body: json_text(registration_body(config)),
            },
        ),
{
    let events = seq![RegistrationEventView::Start, RegistrationEventView::Reply(check)] + later;
    let tail = events.drop_first();
    assert(tail[0] == RegistrationEventView::Reply(check));
    assert(tail.drop_first() =~= later);
    let first = registration_step(config, RegistrationState::Unknown, events[0]);
    let second = registration_step(config, first.0, tail[0]);
    lemma_no_post_past_check(config, second.0, later);
    let end = registration_run(config, second.0, later);
    let mid = registration_run(config, first.0, tail);
    assert(mid.1 == seq![second.1] + end.1);
    assert(mid.1.drop_first() =~= end.1);
    let all = registration_run(config, RegistrationState::Unknown, events);
    assert(all.1 == seq![first.1] + mid.1);
    assert(all.1.drop_first() =~= mid.1);
    assert(first.0 == RegistrationState::Checking);
    assert(first.1 is Get);
    assert(all.1[0] == first.1);
    assert(mid.1[0] == second.1);
    assert(post_count(end.1) == 0);
    assert(post_count(mid.1) == post_count(end.1) + if second.1 is Post {
        1nat
    } else {
        0nat
    });
    assert(post_count(all.1) == post_count(mid.1));
}

/// A check that got no answer leads to the registration all the same.
pub proof fn lemma_check_failure_registers(
    config: RegistrationConfigView,
    detail: Seq<char>,
    later: Seq<RegistrationEventView>,
)
    ensures
        post_count(
            registration_run(
                config,
                RegistrationState::Unknown,
                seq![
                    RegistrationEventView::Start,
                    RegistrationEventView::Reply(RegistryReplyView::Unreachable { detail }),
                ] + later,
            ).1,
        ) == 1,
{
    lemma_posts_after_check(config, RegistryReplyView::Unreachable { detail }, later);
}

/// A registry that answers the check with a success and a JSON document that does
/// not grant writing to all gets one registration; one that grants it gets none.
pub proof fn lemma_check_answer_decides(
    config: RegistrationConfigView,
    status: u16,
    body: Seq<u8>,
    doc: JsonModel,
    later: Seq<RegistrationEventView>,
)
    requires
        is_success_status(status),
        json_document(body) == Some(doc),
    ensures
        post_count(
            registration_run(
                config,
                RegistrationState::Unknown,
                seq![
                    RegistrationEventView::Start,
                    RegistrationEventView::Reply(RegistryReplyView::Answered { status, body }),
                ] + later,
            ).1,
        ) == if grants_write(doc) {
            0nat
        } else {
            1nat
        },
{
    lemma_posts_after_check(config, RegistryReplyView::Answered { status, body }, later);
}

} // verus!
