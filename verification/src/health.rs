//! The health report: what one probe of the backend says about the node.

use crate::inventory::{gpu_to_json, gpus_to_json, DStackResponse, InventoryView};
use crate::json::{
    array_view, find_member, json_text, lemma_array_view, lemma_object_view, object_view, Json,
    JsonModel,
};
use crate::pubkeys::{keys_of_json, lemma_texts_round_trip, texts_to_json, PubkeySet};
use crate::text::{clone_text_option, same_text, text_option_view};
use crate::transport::{
    error_message, outcome_view, probe_outcome, read_probe_reply, DStackConnection, ProbeReply,
    TransportError, TransportErrorView,
};
use vstd::prelude::*;

verus! {

/// Whether the backend answered the last probe.
#[derive(Copy, Clone, PartialEq, Eq, Structural, Debug)]
pub enum DephyWorkerRespondedStatus {
    Available,
    Unavailable,
}

/// What a health query returns.
#[derive(Debug, Clone, PartialEq)]
pub struct BackendInfo {
    pub version: String,
    pub topic: String,
    pub pubkeys: PubkeySet,
    pub status: DephyWorkerRespondedStatus,
    pub metadata: Option<String>,
    pub ip_address: Option<String>,
}

/// What a [`BackendInfo`] holds.
pub struct BackendInfoView {
    pub version: Seq<char>,
    pub topic: Seq<char>,
    pub pubkeys: Set<Seq<char>>,
    pub status: DephyWorkerRespondedStatus,
    pub metadata: Option<Seq<char>>,
    pub ip_address: Option<Seq<char>>,
}

impl View for BackendInfo {
    type V = BackendInfoView;

    open spec fn view(&self) -> BackendInfoView {
        BackendInfoView {
            version: self.version@,
            topic: self.topic@,
            pubkeys: self.pubkeys@,
            status: self.status,
            metadata: text_option_view(self.metadata),
            ip_address: text_option_view(self.ip_address),
        }
    }
}

/// What the service knows from its start on: how the backend is reached, the node's
/// public key, and the node's address where one was found.
#[derive(Debug, Clone)]
pub struct AppState {
    pub connection: DStackConnection,
    pub nostr_pubkey: String,
    pub local_ip: Option<String>,
}

/// The JSON document that a report of an answering backend carries as metadata.
pub open spec fn metadata_of(inventory: InventoryView) -> JsonModel {
    JsonModel::Object(
        seq![
            ("gpu_count"@, JsonModel::Unsigned(inventory.gpus.len())),
            ("gpus"@, JsonModel::Array(gpus_to_json(inventory.gpus))),
            ("allow_attach_all"@, JsonModel::Bool(inventory.allow_attach_all)),
        ],
    )
}

/// The metadata of a report: the text of [`metadata_of`] for an inventory, the text
/// that tells of the error otherwise.
pub open spec fn metadata_text(outcome: Result<InventoryView, TransportErrorView>) -> Seq<char> {
    match outcome {
        Ok(inventory) => json_text(metadata_of(inventory)),
        Err(error) => error_message(error),
    }
}

/// The report for the outcome of a probe.
pub open spec fn health_report_of(
    pubkey: Seq<char>,
    local_ip: Option<Seq<char>>,
    outcome: Result<InventoryView, TransportErrorView>,
) -> BackendInfoView {
    BackendInfoView {
        version: "1.0.0"@,
        topic: "dstack-gpu-monitor"@,
        pubkeys: set![pubkey],
        status: if outcome is Ok {
            DephyWorkerRespondedStatus::Available
        } else {
            DephyWorkerRespondedStatus::Unavailable
        },
        metadata: Some(metadata_text(outcome)),
        ip_address: local_ip,
    }
}

/// Builds the metadata document of an inventory.
pub fn metadata_json(inventory: &DStackResponse) -> (doc: Json)
    ensures
        doc@ == metadata_of(inventory@),
{
    let mut items: Vec<Json> = Vec::new();
    let mut i: usize = 0;
    while i < inventory.gpus.len()
        invariant
            i <= inventory.gpus.len(),
            items.len() == i,
            forall|k: int|
                0 <= k < i ==> (#[trigger] items[k])@ == gpu_to_json(inventory.gpus[k]@),
        decreases inventory.gpus.len() - i,
    {
        items.push(inventory.gpus[i].to_json());
        i += 1;
    }
    proof {
        lemma_array_view(items);
        assert(array_view(items@) =~= gpus_to_json(inventory@.gpus));
    }
    let members = vec![
        (String::from_str("gpu_count"), Json::Unsigned(inventory.gpus.len() as u64)),
        (String::from_str("gpus"), Json::Array(items)),
        (String::from_str("allow_attach_all"), Json::Bool(inventory.allow_attach_all)),
    ];
    proof {
        lemma_object_view(members);
        assert(object_view(members@) =~= metadata_of(inventory@)->Object_0);
    }
    Json::Object(members)
}

/// Builds the report for the outcome of a probe.
pub fn health_report(state: &AppState, outcome: &Result<DStackResponse, TransportError>) -> (report:
    BackendInfo)
    ensures
        report@ == health_report_of(
            state.nostr_pubkey@,
            text_option_view(state.local_ip),
            outcome_view(*outcome),
        ),
{
    let mut pubkeys = PubkeySet::new();
    pubkeys.insert(state.nostr_pubkey.clone());
    assert(pubkeys@ =~= set![state.nostr_pubkey@]);
    let (status, metadata) = match outcome {
        Ok(inventory) => (
            DephyWorkerRespondedStatus::Available,
            metadata_json(inventory).to_text(),
        ),
        Err(error) => (DephyWorkerRespondedStatus::Unavailable, error.message()),
    };
    BackendInfo {
        version: String::from_str("1.0.0"),
        topic: String::from_str("dstack-gpu-monitor"),
        pubkeys,
        status,
        metadata: Some(metadata),
        ip_address: clone_text_option(&state.local_ip),
    }
}

/// Builds the report for what came back for a probe.
pub fn check_dstack_health(state: &AppState, reply: &ProbeReply) -> (report: BackendInfo)
    ensures
        report@ == health_report_of(
            state.nostr_pubkey@,
            text_option_view(state.local_ip),
            probe_outcome(reply@),
        ),
{
    let outcome = read_probe_reply(reply);
    health_report(state, &outcome)
}

/// The HTTP status with which a report is served.
pub open spec fn http_status_of(status: DephyWorkerRespondedStatus) -> u16 {
    match status {
        DephyWorkerRespondedStatus::Available => 200,
        DephyWorkerRespondedStatus::Unavailable => 503,
    }
}

/// The HTTP status with which a report is served.
pub fn health_handler(backend_info: &BackendInfo) -> (code: u16)
    ensures
        code == http_status_of(backend_info.status),
{
    match backend_info.status {
        DephyWorkerRespondedStatus::Available => 200,
        DephyWorkerRespondedStatus::Unavailable => 503,
    }
}

/// The metadata of an answering backend tells the number of its accelerators.
pub proof fn lemma_metadata_gpu_count(inventory: InventoryView)
    ensures
        metadata_of(inventory).member("gpu_count"@) == Some(
            JsonModel::Unsigned(inventory.gpus.len()),
        ),
{
    reveal_strlit("gpu_count");
    reveal_strlit("gpus");
    reveal_strlit("allow_attach_all");
    assert("gpu_count"@.len() == 9);
    assert("gpus"@.len() == 4);
    assert("allow_attach_all"@.len() == 16);
    let members = metadata_of(inventory)->Object_0;
    reveal_with_fuel(find_member, 4);
    assert(members.drop_last() =~= members.take(2));
    assert(members.take(2).drop_last() =~= members.take(1));
}

/// A report tells that the backend is available exactly where the probe gave an
/// inventory, and it always names exactly the node's own public key.
pub proof fn lemma_health_report(
    pubkey: Seq<char>,
    local_ip: Option<Seq<char>>,
    outcome: Result<InventoryView, TransportErrorView>,
)
    ensures
        health_report_of(pubkey, local_ip, outcome).status == DephyWorkerRespondedStatus::Available
            <==> outcome is Ok,
        health_report_of(pubkey, local_ip, outcome).pubkeys == set![pubkey],
        health_report_of(pubkey, local_ip, outcome).pubkeys.finite(),
        health_report_of(pubkey, local_ip, outcome).pubkeys.len() == 1,
        health_report_of(pubkey, local_ip, outcome).pubkeys.contains(pubkey),
        outcome matches Ok(inventory) ==> health_report_of(pubkey, local_ip, outcome).metadata
            == Some(json_text(metadata_of(inventory))),
{
}

impl DephyWorkerRespondedStatus {
    /// The word for the status on the wire.
    pub open spec fn label_of(self) -> Seq<char> {
        match self {
            DephyWorkerRespondedStatus::Available => "available"@,
            DephyWorkerRespondedStatus::Unavailable => "unavailable"@,
        }
    }

    /// The status that a word on the wire stands for.
    pub open spec fn of_label(label: Seq<char>) -> Option<DephyWorkerRespondedStatus> {
        if label == "available"@ {
            Some(DephyWorkerRespondedStatus::Available)
        } else if label == "unavailable"@ {
            Some(DephyWorkerRespondedStatus::Unavailable)
        } else {
            None
        }
    }

    /// The name of the status.
    pub open spec fn name_of(self) -> Seq<char> {
        match self {
            DephyWorkerRespondedStatus::Available => "Available"@,
            DephyWorkerRespondedStatus::Unavailable => "Unavailable"@,
        }
    }

    /// The status that a name stands for.
    pub open spec fn of_name(name: Seq<char>) -> Option<DephyWorkerRespondedStatus> {
        if name == "Available"@ {
            Some(DephyWorkerRespondedStatus::Available)
        } else if name == "Unavailable"@ {
            Some(DephyWorkerRespondedStatus::Unavailable)
        } else {
            None
        }
    }

    /// The number of the status: 1 for available, 2 for unavailable.
    pub open spec fn code_of(self) -> i32 {
        match self {
            DephyWorkerRespondedStatus::Available => 1,
            DephyWorkerRespondedStatus::Unavailable => 2,
        }
    }

    /// The status that a number stands for.
    pub open spec fn of_code(code: i32) -> Option<DephyWorkerRespondedStatus> {
        if code == 1 {
            Some(DephyWorkerRespondedStatus::Available)
        } else if code == 2 {
            Some(DephyWorkerRespondedStatus::Unavailable)
        } else {
            None
        }
    }

    /// The name of the status.
    pub fn name(&self) -> (name: &'static str)
        ensures
            name@ == self.name_of(),
    {
        match self {
            DephyWorkerRespondedStatus::Available => "Available",
            DephyWorkerRespondedStatus::Unavailable => "Unavailable",
        }
    }

    /// Reads the status from its name.
    pub fn from_name(name: &str) -> (status: Option<DephyWorkerRespondedStatus>)
        ensures
            status == Self::of_name(name@),
    {
        if same_text(name, "Available") {
            Some(DephyWorkerRespondedStatus::Available)
        } else if same_text(name, "Unavailable") {
            Some(DephyWorkerRespondedStatus::Unavailable)
        } else {
            None
        }
    }

    /// The word for the status on the wire.
    pub fn label(&self) -> (label: &'static str)
        ensures
            label@ == self.label_of(),
    {
        match self {
            DephyWorkerRespondedStatus::Available => "available",
            DephyWorkerRespondedStatus::Unavailable => "unavailable",
        }
    }

    /// Reads the status from its word on the wire.
    pub fn from_label(label: &str) -> (status: Option<DephyWorkerRespondedStatus>)
        ensures
            status == Self::of_label(label@),
    {
        if same_text(label, "available") {
            Some(DephyWorkerRespondedStatus::Available)
        } else if same_text(label, "unavailable") {
            Some(DephyWorkerRespondedStatus::Unavailable)
        } else {
            None
        }
    }

    /// The number of the status.
    pub fn code(&self) -> (code: i32)
        ensures
            code == self.code_of(),
    {
        match self {
            DephyWorkerRespondedStatus::Available => 1,
            DephyWorkerRespondedStatus::Unavailable => 2,
        }
    }

    /// Reads the status from its number.
    pub fn from_code(code: i32) -> (status: Option<DephyWorkerRespondedStatus>)
        ensures
            status == Self::of_code(code),
    {
        if code == 1 {
            Some(DephyWorkerRespondedStatus::Available)
        } else if code == 2 {
            Some(DephyWorkerRespondedStatus::Unavailable)
        } else {
            None
        }
    }

    /// A status is read back from its word, from its name and from its number.
    pub proof fn lemma_status_round_trip(self)
        ensures
            Self::of_label(self.label_of()) == Some(self),
            Self::of_name(self.name_of()) == Some(self),
            Self::of_code(self.code_of()) == Some(self),
    {
        reveal_strlit("available");
        reveal_strlit("unavailable");
        reveal_strlit("Available");
        reveal_strlit("Unavailable");
        assert("available"@.len() == 9);
        assert("unavailable"@.len() == 11);
        assert("Available"@.len() == 9);
        assert("Unavailable"@.len() == 11);
    }
}

/// The JSON value for a string that may be absent: the string, or `null`.
pub open spec fn opt_text_to_json(text: Option<Seq<char>>) -> JsonModel {
    match text {
        Some(t) => JsonModel::Text(t),
        None => JsonModel::Null,
    }
}

/// The string that may be absent, as the member `key` tells it: absent where the
/// member is missing or `null`. `None` where the member is anything but a string.
pub open spec fn opt_text_member(doc: JsonModel, key: Seq<char>) -> Option<Option<Seq<char>>> {
    match doc.member(key) {
        None => Some(None),
        Some(JsonModel::Null) => Some(None),
        Some(JsonModel::Text(t)) => Some(Some(t)),
        Some(_) => None,
    }
}

/// The JSON document for a report whose public keys are listed in the given order.
pub open spec fn report_to_json(report: BackendInfoView, listing: Seq<Seq<char>>) -> JsonModel {
    JsonModel::Object(
        seq![
            ("version"@, JsonModel::Text(report.version)),
            ("topic"@, JsonModel::Text(report.topic)),
            ("pubkeys"@, JsonModel::Array(texts_to_json(listing))),
            ("status"@, JsonModel::Text(report.status.label_of())),
            ("metadata"@, opt_text_to_json(report.metadata)),
            ("ip_address"@, opt_text_to_json(report.ip_address)),
        ],
    )
}

/// The status that the member `status` tells.
pub open spec fn status_member(doc: JsonModel) -> Option<DephyWorkerRespondedStatus> {
    match doc.text_member("status"@) {
        Some(label) => DephyWorkerRespondedStatus::of_label(label),
        None => None,
    }
}

/// The public keys that the member `pubkeys` tells.
pub open spec fn pubkeys_member(doc: JsonModel) -> Option<Set<Seq<char>>> {
    match doc.array_member("pubkeys"@) {
        Some(items) => keys_of_json(items),
        None => None,
    }
}

/// The report that a JSON document describes: an object with the strings `version`
/// and `topic`, the array `pubkeys` of strings, the string `status`, and the strings
/// or `null` `metadata` and `ip_address`, which may be missing.
pub open spec fn report_of_json(doc: JsonModel) -> Option<BackendInfoView> {
    if doc.text_member("version"@) is Some && doc.text_member("topic"@) is Some
        && pubkeys_member(doc) is Some && status_member(doc) is Some && opt_text_member(
        doc,
        "metadata"@,
    ) is Some && opt_text_member(doc, "ip_address"@) is Some {
        Some(
            BackendInfoView {
                version: doc.text_member("version"@)->0,
                topic: doc.text_member("topic"@)->0,
                pubkeys: pubkeys_member(doc)->0,
                status: status_member(doc)->0,
                metadata: opt_text_member(doc, "metadata"@)->0,
                ip_address: opt_text_member(doc, "ip_address"@)->0,
            },
        )
    } else {
        None
    }
}

/// The keys of a report's wire format differ from one another.
pub proof fn lemma_report_keys_differ()
    ensures
        "version"@ != "topic"@,
        "version"@ != "pubkeys"@,
        "version"@ != "status"@,
        "version"@ != "metadata"@,
        "version"@ != "ip_address"@,
        "topic"@ != "pubkeys"@,
        "topic"@ != "status"@,
        "topic"@ != "metadata"@,
        "topic"@ != "ip_address"@,
        "pubkeys"@ != "status"@,
        "pubkeys"@ != "metadata"@,
        "pubkeys"@ != "ip_address"@,
        "status"@ != "metadata"@,
        "status"@ != "ip_address"@,
        "metadata"@ != "ip_address"@,
{
    reveal_strlit("version");
    reveal_strlit("topic");
    reveal_strlit("pubkeys");
    reveal_strlit("status");
    reveal_strlit("metadata");
    reveal_strlit("ip_address");
    assert("version"@.len() == 7);
    assert("topic"@.len() == 5);
    assert("pubkeys"@.len() == 7);
    assert("status"@.len() == 6);
    assert("metadata"@.len() == 8);
    assert("ip_address"@.len() == 10);
    assert("version"@[0] == 'v');
    assert("pubkeys"@[0] == 'p');
}

/// Reading what was written for a report gives the report back.
pub proof fn lemma_report_round_trip(report: BackendInfoView, listing: Seq<Seq<char>>)
    requires
        listing.to_set() == report.pubkeys,
    ensures
        report_of_json(report_to_json(report, listing)) == Some(report),
{
    lemma_report_keys_differ();
    report.status.lemma_status_round_trip();
    lemma_texts_round_trip(listing);
    let doc = report_to_json(report, listing);
    let members = doc->Object_0;
    reveal_with_fuel(find_member, 7);
    assert(members.drop_last() =~= members.take(5));
    assert(members.take(5).drop_last() =~= members.take(4));
    assert(members.take(4).drop_last() =~= members.take(3));
    assert(members.take(3).drop_last() =~= members.take(2));
    assert(members.take(2).drop_last() =~= members.take(1));
    assert(members.take(1).drop_last() =~= members.take(0));
    assert(doc.member("version"@) == Some(JsonModel::Text(report.version)));
    assert(doc.member("topic"@) == Some(JsonModel::Text(report.topic)));
    assert(doc.member("pubkeys"@) == Some(JsonModel::Array(texts_to_json(listing))));
    assert(doc.member("status"@) == Some(JsonModel::Text(report.status.label_of())));
    assert(doc.member("metadata"@) == Some(opt_text_to_json(report.metadata)));
    assert(doc.member("ip_address"@) == Some(opt_text_to_json(report.ip_address)));
    assert(report_of_json(doc)->0.metadata == report.metadata);
    assert(report_of_json(doc)->0.ip_address == report.ip_address);
}

/// Writes a string that may be absent as a JSON value.
fn opt_text_json(text: &Option<String>) -> (doc: Json)
    ensures
        doc@ == opt_text_to_json(text_option_view(*text)),
{
    match text {
        Some(t) => Json::Text(t.clone()),
        None => Json::Null,
    }
}

/// Reads a string that may be absent from the member `key`.
fn read_opt_text(doc: &Json, key: &str) -> (text: Option<Option<String>>)
    ensures
        opt_text_member(doc@, key@) == match text {
            Some(t) => Some(text_option_view(t)),
            None => None,
        },
{
    match doc.member(key) {
        None => Some(None),
        Some(Json::Null) => Some(None),
        Some(Json::Text(t)) => Some(Some(t.clone())),
        Some(_) => None,
    }
}

impl BackendInfo {
    /// Writes the report as a JSON document.
    pub fn to_json(&self) -> (doc: Json)
        ensures
            doc@ == report_to_json(self@, self.pubkeys.listing()),
    {
        let members = vec![
            (String::from_str("version"), Json::Text(self.version.clone())),
            (String::from_str("topic"), Json::Text(self.topic.clone())),
            (String::from_str("pubkeys"), self.pubkeys.to_json()),
            (String::from_str("status"), Json::Text(String::from_str(self.status.label()))),
            (String::from_str("metadata"), opt_text_json(&self.metadata)),
            (String::from_str("ip_address"), opt_text_json(&self.ip_address)),
        ];
        proof {
            lemma_object_view(members);
            assert(object_view(members@) =~= report_to_json(
                self@,
                self.pubkeys.listing(),
            )->Object_0);
        }
        Json::Object(members)
    }

    /// Reads a report from a JSON document.
    pub fn from_json(doc: &Json) -> (report: Option<BackendInfo>)
        ensures
            report_of_json(doc@) == match report {
                Some(r) => Some(r@),
                None => None,
            },
    {
        let version = match doc.text_member("version") {
            Some(t) => t.clone(),
            None => {
                return None;
            },
        };
        let topic = match doc.text_member("topic") {
            Some(t) => t.clone(),
            None => {
                return None;
            },
        };
        let pubkeys = match doc.array_member("pubkeys") {
            Some(items) => match PubkeySet::from_json(items) {
                Some(set) => set,
                None => {
                    return None;
                },
            },
            None => {
                return None;
            },
        };
        let status = match doc.text_member("status") {
            Some(label) => match DephyWorkerRespondedStatus::from_label(label.as_str()) {
                Some(status) => status,
                None => {
                    return None;
                },
            },
            None => {
                return None;
            },
        };
        let metadata = match read_opt_text(doc, "metadata") {
            Some(t) => t,
            None => {
                return None;
            },
        };
        let ip_address = match read_opt_text(doc, "ip_address") {
            Some(t) => t,
            None => {
                return None;
            },
        };
        Some(BackendInfo { version, topic, pubkeys, status, metadata, ip_address })
    }
}

} // verus!
