//! The whitelist of public keys: who is on it, and how it is stored.

use crate::json::{
    document_view, find_member, json_document, json_pretty_text, lemma_object_view, object_view,
    parse_text, Json, JsonModel,
};
use crate::pubkeys::{keys_of_json, lemma_texts_round_trip, texts_to_json, PubkeySet};
use crate::text::text_option_view;
use vstd::prelude::*;
use vstd::std_specs::cmp::PartialEqSpecImpl;
use vstd::string::StringSliceAdditionalSpecFns;

verus! {

/// The public keys that are let in.
#[derive(Debug, Clone)]
pub struct Whitelist {
    pub pubkeys: PubkeySet,
}

/// The question whether a public key is let in.
#[derive(Debug, Clone, PartialEq)]
pub struct WhitelistQuery {
    pub pubkey: String,
}

/// The answer to a [`WhitelistQuery`].
#[derive(Debug, Clone, PartialEq)]
pub struct WhitelistResponse {
    pub is_whitelisted: bool,
    pub pubkey: String,
}

impl View for Whitelist {
    type V = Set<Seq<char>>;

    open spec fn view(&self) -> Set<Seq<char>> {
        self.pubkeys@
    }
}

impl PartialEq for Whitelist {
    fn eq(&self, other: &Whitelist) -> (same: bool) {
        self.pubkeys.same_keys(&other.pubkeys)
    }
}

impl PartialEqSpecImpl for Whitelist {
    open spec fn obeys_eq_spec() -> bool {
        true
    }

    open spec fn eq_spec(&self, other: &Whitelist) -> bool {
        self@ == other@
    }
}

/// The keys that a JSON document lets in: an object whose member `pubkeys` is an
/// array of strings. Other members are ignored.
pub open spec fn whitelist_of_json(doc: JsonModel) -> Option<Set<Seq<char>>> {
    match doc.array_member("pubkeys"@) {
        Some(items) => keys_of_json(items),
        None => None,
    }
}

/// The JSON document for a whitelist whose keys are listed in the given order.
pub open spec fn whitelist_to_json(listing: Seq<Seq<char>>) -> JsonModel {
    JsonModel::Object(seq![("pubkeys"@, JsonModel::Array(texts_to_json(listing)))])
}

/// Reading what was written for a whitelist gives its keys back.
pub proof fn lemma_whitelist_round_trip(listing: Seq<Seq<char>>)
    ensures
        whitelist_of_json(whitelist_to_json(listing)) == Some(listing.to_set()),
{
    let members = whitelist_to_json(listing)->Object_0;
    reveal_with_fuel(find_member, 2);
    lemma_texts_round_trip(listing);
}

impl Whitelist {
    /// The whitelist that lets nobody in.
    pub fn new() -> (whitelist: Whitelist)
        ensures
            whitelist@ == Set::<Seq<char>>::empty(),
            whitelist.pubkeys.listing() == Seq::<Seq<char>>::empty(),
    {
        Whitelist { pubkeys: PubkeySet::new() }
    }

    /// Tells whether `pubkey` is let in.
    pub fn is_whitelisted(&self, pubkey: &str) -> (found: bool)
        ensures
            found == self@.contains(pubkey@),
    {
        self.pubkeys.contains(pubkey)
    }

    /// Reads a whitelist from a JSON document.
    pub fn from_json(doc: &Json) -> (whitelist: Option<Whitelist>)
        ensures
            whitelist_of_json(doc@) == match whitelist {
                Some(w) => Some(w@),
                None => None,
            },
    {
        match doc.array_member("pubkeys") {
            Some(items) => match PubkeySet::from_json(items) {
                Some(pubkeys) => Some(Whitelist { pubkeys }),
                None => None,
            },
            None => None,
        }
    }

    /// Writes the whitelist as a JSON document.
    pub fn to_json(&self) -> (doc: Json)
        ensures
            doc@ == whitelist_to_json(self.pubkeys.listing()),
    {
        let members = vec![(String::from_str("pubkeys"), self.pubkeys.to_json())];
        proof {
            lemma_object_view(members);
            assert(object_view(members@) =~= whitelist_to_json(self.pubkeys.listing())->Object_0);
        }
        Json::Object(members)
    }
}

/// Answers the question whether a public key is let in.
pub fn whitelist_handler(query: WhitelistQuery, whitelist: &Whitelist) -> (response:
    WhitelistResponse)
    ensures
        response.is_whitelisted == whitelist@.contains(query.pubkey@),
        response.pubkey@ == query.pubkey@,
{
    let is_whitelisted = whitelist.is_whitelisted(query.pubkey.as_str());
    WhitelistResponse { is_whitelisted, pubkey: query.pubkey }
}

/// The JSON document for an answer.
pub open spec fn response_to_json(is_whitelisted: bool, pubkey: Seq<char>) -> JsonModel {
    JsonModel::Object(
        seq![
            ("is_whitelisted"@, JsonModel::Bool(is_whitelisted)),
            ("pubkey"@, JsonModel::Text(pubkey)),
        ],
    )
}

impl WhitelistResponse {
    /// Writes the answer as a JSON document.
    pub fn to_json(&self) -> (doc: Json)
        ensures
            doc@ == response_to_json(self.is_whitelisted, self.pubkey@),
    {
        let members = vec![
            (String::from_str("is_whitelisted"), Json::Bool(self.is_whitelisted)),
            (String::from_str("pubkey"), Json::Text(self.pubkey.clone())),
        ];
        proof {
            lemma_object_view(members);
            assert(object_view(members@) =~= response_to_json(
                self.is_whitelisted,
                self.pubkey@,
            )->Object_0);
        }
        Json::Object(members)
    }
}

/// Why a stored whitelist could not be read.
#[derive(Copy, Clone, PartialEq, Eq, Structural, Debug)]
pub enum WhitelistError {
    /// The content is no JSON.
    NotJson,
    /// The content is JSON, but no whitelist.
    NotAWhitelist,
}

/// A whitelist as loaded, and the content to store where none was stored.
#[derive(Debug)]
pub struct LoadedWhitelist {
    pub whitelist: Whitelist,
    pub to_store: Option<String>,
}

/// What loading yields, by its content: the keys and the content to store, or the
/// error.
pub open spec fn loaded_view(loaded: Result<LoadedWhitelist, WhitelistError>) -> Result<
    (Set<Seq<char>>, Option<Seq<char>>),
    WhitelistError,
> {
    match loaded {
        Ok(l) => Ok((l.whitelist@, text_option_view(l.to_store))),
        Err(e) => Err(e),
    }
}

/// What reading a stored whitelist yields, by the JSON document of the content, or
/// for a content that is no JSON at all.
pub open spec fn stored_whitelist(doc: Option<JsonModel>) -> Result<
    (Set<Seq<char>>, Option<Seq<char>>),
    WhitelistError,
> {
    match doc {
        None => Err(WhitelistError::NotJson),
        Some(d) => match whitelist_of_json(d) {
            Some(keys) => Ok((keys, None)),
            None => Err(WhitelistError::NotAWhitelist),
        },
    }
}

/// What loading yields: a stored whitelist is read; where none is stored, the
/// whitelist is empty and is to be stored as indented JSON.
pub open spec fn load_whitelist_of(content: Option<Seq<u8>>) -> Result<
    (Set<Seq<char>>, Option<Seq<char>>),
    WhitelistError,
> {
    match content {
        Some(bytes) => stored_whitelist(json_document(bytes)),
        None => Ok(
            (
                Set::<Seq<char>>::empty(),
                Some(json_pretty_text(whitelist_to_json(Seq::<Seq<char>>::empty()))),
            ),
        ),
    }
}

/// Reads a stored whitelist from the JSON document of its content.
pub fn read_stored_whitelist(doc: &Option<Json>) -> (loaded: Result<
    LoadedWhitelist,
    WhitelistError,
>)
    ensures
        loaded_view(loaded) == stored_whitelist(document_view(*doc)),
{
    match doc {
        None => Err(WhitelistError::NotJson),
        Some(d) => match Whitelist::from_json(d) {
            Some(whitelist) => Ok(LoadedWhitelist { whitelist, to_store: None }),
            None => Err(WhitelistError::NotAWhitelist),
        },
    }
}

/// Loads the whitelist from the stored content, where there is one.
pub fn load_whitelist(content: Option<&str>) -> (loaded: Result<LoadedWhitelist, WhitelistError>)
    ensures
        loaded_view(loaded) == load_whitelist_of(
            match content {
                Some(text) => Some(text.spec_bytes()),
                None => None,
            },
        ),
{
    match content {
        Some(text) => {
            let doc = parse_text(text);
            read_stored_whitelist(&doc)
        },
        None => {
            let whitelist = Whitelist::new();
            let to_store = whitelist.to_json().to_pretty_text();
            Ok(LoadedWhitelist { whitelist, to_store: Some(to_store) })
        },
    }
}

} // verus!
