//! How the inventory backend is reached, what a probe asks of it, and what a reply to a
//! probe means. Sending the request and receiving the reply is the caller's part.

use crate::inventory::{inventory_of_json, DStackResponse, InventoryView};
use crate::json::{document_view, json_document, parse, Json, JsonModel};
use crate::text::{decimal, has_prefix, starts_with_text, text_after, to_decimal};
use vstd::prelude::*;

verus! {

/// How the inventory backend is reached.
#[derive(Debug, Clone, PartialEq)]
pub enum DStackConnection {
    Http { url: String },
    UnixSocket { socket_path: String },
}

/// What a [`DStackConnection`] holds.
pub enum ConnectionView {
    Http { url: Seq<char> },
    UnixSocket { socket_path: Seq<char> },
}

impl View for DStackConnection {
    type V = ConnectionView;

    open spec fn view(&self) -> ConnectionView {
        match self {
            DStackConnection::Http { url } => ConnectionView::Http { url: url@ },
            DStackConnection::UnixSocket { socket_path } => ConnectionView::UnixSocket {
                socket_path: socket_path@,
            },
        }
    }
}

/// The connection that a configured address selects: a Unix socket at what follows
/// `unix://`, where the address begins with it; HTTP at the address otherwise.
pub open spec fn connection_of(config: Seq<char>) -> ConnectionView {
    if has_prefix(config, "unix://"@) {
        ConnectionView::UnixSocket { socket_path: config.subrange(7, config.len() as int) }
    } else {
        ConnectionView::Http { url: config }
    }
}

impl DStackConnection {
    /// Selects the connection from the configured address.
    pub fn from_config(config: &str) -> (connection: DStackConnection)
        ensures
            connection@ == connection_of(config@),
    {
        proof {
            reveal_strlit("unix://");
        }
        if starts_with_text(config, "unix://") {
            DStackConnection::UnixSocket { socket_path: text_after(config, 7) }
        } else {
            DStackConnection::Http { url: String::from_str(config) }
        }
    }
}

/// The request that a probe sends.
#[derive(Debug, Clone, PartialEq)]
pub enum ProbeRequest {
    /// A GET of `url`.
    HttpGet { url: String },
    /// A GET of `path` over the Unix socket at `socket_path`, with the header `Host: host`.
    UnixGet { socket_path: String, path: String, host: String },
}

/// What a [`ProbeRequest`] holds.
pub enum ProbeRequestView {
    HttpGet { url: Seq<char> },
    UnixGet { socket_path: Seq<char>, path: Seq<char>, host: Seq<char> },
}

impl View for ProbeRequest {
    type V = ProbeRequestView;

    open spec fn view(&self) -> ProbeRequestView {
        match self {
            ProbeRequest::HttpGet { url } => ProbeRequestView::HttpGet { url: url@ },
            ProbeRequest::UnixGet { socket_path, path, host } => ProbeRequestView::UnixGet {
                socket_path: socket_path@,
                path: path@,
                host: host@,
            },
        }
    }
}

/// The request that a probe over `connection` sends.
pub open spec fn probe_request_of(connection: ConnectionView) -> ProbeRequestView {
    match connection {
        ConnectionView::Http { url } => ProbeRequestView::HttpGet {
            url: url + "/prpc/ListGpus?json"@,
        },
        ConnectionView::UnixSocket { socket_path } => ProbeRequestView::UnixGet {
            socket_path,
            path: "/prpc/ListGpus?json"@,
            host: "127.0.0.1"@,
        },
    }
}

/// Builds the request that a probe over `connection` sends.
pub fn probe_request(connection: &DStackConnection) -> (request: ProbeRequest)
    ensures
        request@ == probe_request_of(connection@),
{
    match connection {
        DStackConnection::Http { url } => {
            let mut full_url = url.clone();
            full_url.append("/prpc/ListGpus?json");
            ProbeRequest::HttpGet { url: full_url }
        },
        DStackConnection::UnixSocket { socket_path } => ProbeRequest::UnixGet {
            socket_path: socket_path.clone(),
            path: String::from_str("/prpc/ListGpus?json"),
            host: String::from_str("127.0.0.1"),
        },
    }
}

/// What came back for a probe.
#[derive(Debug, Clone, PartialEq)]
pub enum ProbeReply {
    /// The request could not be built.
    RequestRejected { detail: String },
    /// No response arrived.
    Unreachable { detail: String },
    /// A response arrived, but its body could not be read.
    BodyUnreadable { status: u16, detail: String },
    /// A response arrived.
    Answered { status: u16, body: Vec<u8> },
}

/// What a [`ProbeReply`] holds.
pub enum ProbeReplyView {
    RequestRejected { detail: Seq<char> },
    Unreachable { detail: Seq<char> },
    BodyUnreadable { status: u16, detail: Seq<char> },
    Answered { status: u16, body: Seq<u8> },
}

impl View for ProbeReply {
    type V = ProbeReplyView;

    open spec fn view(&self) -> ProbeReplyView {
        match self {
            ProbeReply::RequestRejected { detail } => ProbeReplyView::RequestRejected {
                detail: detail@,
            },
            ProbeReply::Unreachable { detail } => ProbeReplyView::Unreachable { detail: detail@ },
            ProbeReply::BodyUnreadable { status, detail } => ProbeReplyView::BodyUnreadable {
                status: *status,
                detail: detail@,
            },
            ProbeReply::Answered { status, body } => ProbeReplyView::Answered {
                status: *status,
                body: body@,
            },
        }
    }
}

/// Why a probe gave no inventory.
#[derive(Debug, Clone, PartialEq)]
pub enum TransportError {
    /// No response arrived, or it broke off.
    Connection(String),
    /// The response carried a status that is no success.
    HttpStatus(u16),
    /// The body does not describe an inventory.
    DecodeFailure(String),
    /// The request could not be built.
    RequestConstruction(String),
}

/// What a [`TransportError`] holds.
pub enum TransportErrorView {
    Connection(Seq<char>),
    HttpStatus(u16),
    DecodeFailure(Seq<char>),
    RequestConstruction(Seq<char>),
}

impl View for TransportError {
    type V = TransportErrorView;

    open spec fn view(&self) -> TransportErrorView {
        match self {
            TransportError::Connection(detail) => TransportErrorView::Connection(detail@),
            TransportError::HttpStatus(code) => TransportErrorView::HttpStatus(*code),
            TransportError::DecodeFailure(detail) => TransportErrorView::DecodeFailure(detail@),
            TransportError::RequestConstruction(detail) => TransportErrorView::RequestConstruction(
                detail@,
            ),
        }
    }
}

/// What the outcome of a probe holds.
pub open spec fn outcome_view(outcome: Result<DStackResponse, TransportError>) -> Result<
    InventoryView,
    TransportErrorView,
> {
    match outcome {
        Ok(inventory) => Ok(inventory@),
        Err(error) => Err(error@),
    }
}

/// Whether an HTTP status reports success, that is, lies in `200..=299`.
pub open spec fn is_success_status(code: u16) -> bool {
    200 <= code <= 299
}

/// Tells whether an HTTP status reports success.
pub fn status_is_success(code: u16) -> (ok: bool)
    ensures
        ok == is_success_status(code),
{
    200 <= code && code <= 299
}

/// The outcome of a probe whose response carried a success status and the JSON
/// document `doc`, or no JSON at all.
pub open spec fn body_outcome(doc: Option<JsonModel>) -> Result<
    InventoryView,
    TransportErrorView,
> {
    match doc {
        None => Err(TransportErrorView::DecodeFailure("body is not JSON"@)),
        Some(d) => match inventory_of_json(d) {
            Some(inventory) => Ok(inventory),
            None => Err(TransportErrorView::DecodeFailure("body is not an inventory"@)),
        },
    }
}

/// The outcome of a probe, by what came back: the status is looked at before the
/// body, and the body only where the status is a success.
pub open spec fn probe_outcome(reply: ProbeReplyView) -> Result<InventoryView, TransportErrorView> {
    match reply {
        ProbeReplyView::RequestRejected { detail } => Err(
            TransportErrorView::RequestConstruction(detail),
        ),
        ProbeReplyView::Unreachable { detail } => Err(TransportErrorView::Connection(detail)),
        ProbeReplyView::BodyUnreadable { status, detail } => if is_success_status(status) {
            Err(TransportErrorView::Connection(detail))
        } else {
            Err(TransportErrorView::HttpStatus(status))
        },
        ProbeReplyView::Answered { status, body } => if is_success_status(status) {
            body_outcome(json_document(body))
        } else {
            Err(TransportErrorView::HttpStatus(status))
        },
    }
}

/// Reads the inventory from the JSON document of a response with a success status.
pub fn read_inventory(doc: Option<Json>) -> (outcome: Result<
    DStackResponse,
    TransportError,
>)
    ensures
        outcome_view(outcome) == body_outcome(document_view(doc)),
{
    match doc {
        None => Err(TransportError::DecodeFailure(String::from_str("body is not JSON"))),
        Some(d) => match DStackResponse::from_json(&d) {
            Some(inventory) => Ok(inventory),
            None => Err(
                TransportError::DecodeFailure(String::from_str("body is not an inventory")),
            ),
        },
    }
}

/// Reads the outcome of a probe from what came back.
pub fn read_probe_reply(reply: &ProbeReply) -> (outcome: Result<DStackResponse, TransportError>)
    ensures
        outcome_view(outcome) == probe_outcome(reply@),
{
    match reply {
        ProbeReply::RequestRejected { detail } => Err(
            TransportError::RequestConstruction(detail.clone()),
        ),
        ProbeReply::Unreachable { detail } => Err(TransportError::Connection(detail.clone())),
        ProbeReply::BodyUnreadable { status, detail } => {
            if status_is_success(*status) {
                Err(TransportError::Connection(detail.clone()))
            } else {
                Err(TransportError::HttpStatus(*status))
            }
        },
        ProbeReply::Answered { status, body } => {
            if status_is_success(*status) {
                read_inventory(parse(body.as_slice()))
            } else {
                Err(TransportError::HttpStatus(*status))
            }
        },
    }
}

/// The text that tells of an error: its category, then its detail.
pub open spec fn error_message(error: TransportErrorView) -> Seq<char> {
    match error {
        TransportErrorView::Connection(detail) => "Connection error: "@ + detail,
        TransportErrorView::HttpStatus(code) => "HTTP error: "@ + decimal(code as nat),
        TransportErrorView::DecodeFailure(detail) => "Parse error: "@ + detail,
        TransportErrorView::RequestConstruction(detail) => "Request error: "@ + detail,
    }
}

impl TransportError {
    /// Tells of the error in words.
    pub fn message(&self) -> (text: String)
        ensures
            text@ == error_message(self@),
    {
        match self {
            TransportError::Connection(detail) => {
                let mut text = String::from_str("Connection error: ");
                text.append(detail.as_str());
                text
            },
            TransportError::HttpStatus(code) => {
                let mut text = String::from_str("HTTP error: ");
                text.append(to_decimal(*code as u64).as_str());
                text
            },
            TransportError::DecodeFailure(detail) => {
                let mut text = String::from_str("Parse error: ");
                text.append(detail.as_str());
                text
            },
            TransportError::RequestConstruction(detail) => {
                let mut text = String::from_str("Request error: ");
                text.append(detail.as_str());
                text
            },
        }
    }
}

/// Whether a reply carries an inventory: a response with a success status and a body
/// that is JSON and describes an inventory.
pub open spec fn carries_inventory(reply: ProbeReplyView) -> bool {
    match reply {
        ProbeReplyView::Answered { status, body } => is_success_status(status) && match json_document(
            body,
        ) {
            Some(doc) => inventory_of_json(doc) is Some,
            None => false,
        },
        _ => false,
    }
}

/// A probe gives an inventory exactly where the reply carries one, and then the one
/// that the body describes.
pub proof fn lemma_probe_succeeds(reply: ProbeReplyView)
    ensures
        probe_outcome(reply) is Ok <==> carries_inventory(reply),
        carries_inventory(reply) ==> probe_outcome(reply) == Ok::<
            InventoryView,
            TransportErrorView,
        >(inventory_of_json(json_document(reply->Answered_body)->0)->0),
{
}

} // verus!
