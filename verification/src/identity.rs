//! Who the node is: the public key that belongs to a stored secret key, and the
//! owner's address in its canonical form. Deriving a key is `nostr_sdk`'s work,
//! reading an address is `alloy`'s.

use crate::text::text_option_view;
use vstd::prelude::*;

verus! {

/// The public key, in hex, of the secret key that `nostr_sdk` reads from a text;
/// `None` where it reads none.
pub uninterp spec fn nostr_public_key(secret: Seq<char>) -> Option<Seq<char>>;

/// The checksummed text of the address that `alloy` reads from a text; `None` where
/// it reads none.
pub uninterp spec fn owner_address_text(text: Seq<char>) -> Option<Seq<char>>;

/// `nostr_sdk::prelude::Keys::parse`, then `Keys::public_key` and `PublicKey::to_hex`:
/// the public key of the secret key that the text holds, or `None` where the text is
/// rejected. The result is a function of the text alone.
#[verifier::external_body]
fn derive_public_key(secret: &str) -> (pubkey: Option<String>)
    ensures
        text_option_view(pubkey) == nostr_public_key(secret@),
{
    match nostr_sdk::prelude::Keys::parse(secret) {
        Ok(keys) => Some(keys.public_key().to_hex()),
        Err(_) => None,
    }
}

/// `str::parse` for `alloy::primitives::Address`, then its `to_string`: the address
/// that the text holds, written with its checksum, or `None` where the text is
/// rejected. The result is a function of the text alone.
#[verifier::external_body]
fn parse_owner_address(text: &str) -> (formatted: Option<String>)
    ensures
        text_option_view(formatted) == owner_address_text(text@),
{
    match text.parse::<alloy::primitives::Address>() {
        Ok(address) => Some(address.to_string()),
        Err(_) => None,
    }
}

/// Why the node's identity could not be settled.
#[derive(Copy, Clone, PartialEq, Eq, Structural, Debug)]
pub enum IdentityError {
    /// The stored secret key cannot be read.
    InvalidSecretKey,
    /// The owner's address cannot be read.
    InvalidOwnerAddress,
}

/// What is to be done about the node's key pair.
#[derive(Debug, Clone, PartialEq)]
pub enum KeyPlan {
    /// Use the stored secret key; its public key is `pubkey`.
    UseStored { pubkey: String },
    /// Make a new key pair and store its secret key.
    GenerateAndStore,
}

/// What a [`KeyPlan`] holds.
pub enum KeyPlanView {
    UseStored { pubkey: Seq<char> },
    GenerateAndStore,
}

impl View for KeyPlan {
    type V = KeyPlanView;

    open spec fn view(&self) -> KeyPlanView {
        match self {
            KeyPlan::UseStored { pubkey } => KeyPlanView::UseStored { pubkey: pubkey@ },
            KeyPlan::GenerateAndStore => KeyPlanView::GenerateAndStore,
        }
    }
}

/// What a plan or its failure holds.
pub open spec fn plan_view(plan: Result<KeyPlan, IdentityError>) -> Result<
    KeyPlanView,
    IdentityError,
> {
    match plan {
        Ok(p) => Ok(p@),
        Err(e) => Err(e),
    }
}

/// The plan for a key store: `None` where nothing is stored; otherwise the public key
/// that was derived from the stored secret key, or `None` where none could be derived.
pub open spec fn key_plan_of(derived: Option<Option<Seq<char>>>) -> Result<
    KeyPlanView,
    IdentityError,
> {
    match derived {
        None => Ok(KeyPlanView::GenerateAndStore),
        Some(Some(pubkey)) => Ok(KeyPlanView::UseStored { pubkey }),
        Some(None) => Err(IdentityError::InvalidSecretKey),
    }
}

/// Makes the plan from what was derived from the key store.
pub fn key_plan(derived: Option<Option<String>>) -> (plan: Result<KeyPlan, IdentityError>)
    ensures
        plan_view(plan) == key_plan_of(
            match derived {
                Some(d) => Some(text_option_view(d)),
                None => None,
            },
        ),
{
    match derived {
        None => Ok(KeyPlan::GenerateAndStore),
        Some(Some(pubkey)) => Ok(KeyPlan::UseStored { pubkey }),
        Some(None) => Err(IdentityError::InvalidSecretKey),
    }
}

/// Makes the plan for the node's key pair from the content of the key store, where
/// there is one.
pub fn load_or_create_nostr_keypair(stored: Option<&str>) -> (plan: Result<
    KeyPlan,
    IdentityError,
>)
    ensures
        plan_view(plan) == key_plan_of(
            match stored {
                Some(secret) => Some(nostr_public_key(secret@)),
                None => None,
            },
        ),
{
    match stored {
        Some(secret) => key_plan(Some(derive_public_key(secret))),
        None => key_plan(None),
    }
}

/// The owner's address in its canonical form.
pub fn owner_address(text: &str) -> (formatted: Result<String, IdentityError>)
    ensures
        match formatted {
            Ok(address) => owner_address_text(text@) == Some(address@),
            Err(error) => owner_address_text(text@) is None
                && error == IdentityError::InvalidOwnerAddress,
        },
{
    match parse_owner_address(text) {
        Some(address) => Ok(address),
        None => Err(IdentityError::InvalidOwnerAddress),
    }
}

} // verus!
