use dstack_backend::identity::{
    key_plan, load_or_create_nostr_keypair, owner_address, IdentityError, KeyPlan,
};

const SECRET_ONE: &str = "0000000000000000000000000000000000000000000000000000000000000001";
const PUBLIC_ONE: &str = "79be667ef9dcbbac55a06295ce870b07029bfcdb2dce28d959f2815b16f81798";

#[test]
fn a_stored_secret_key_gives_its_public_key() {
    assert_eq!(
        load_or_create_nostr_keypair(Some(SECRET_ONE)),
        Ok(KeyPlan::UseStored { pubkey: PUBLIC_ONE.to_string() })
    );
}

#[test]
fn an_empty_store_asks_for_a_new_key_pair() {
    assert_eq!(load_or_create_nostr_keypair(None), Ok(KeyPlan::GenerateAndStore));
}

#[test]
fn an_unreadable_secret_key_is_an_error() {
    assert_eq!(
        load_or_create_nostr_keypair(Some("not a key")),
        Err(IdentityError::InvalidSecretKey)
    );
    assert_eq!(load_or_create_nostr_keypair(Some("")), Err(IdentityError::InvalidSecretKey));
}

#[test]
fn plans_from_what_was_derived() {
    assert_eq!(key_plan(None), Ok(KeyPlan::GenerateAndStore));
    assert_eq!(
        key_plan(Some(Some("ab".to_string()))),
        Ok(KeyPlan::UseStored { pubkey: "ab".to_string() })
    );
    assert_eq!(key_plan(Some(None)), Err(IdentityError::InvalidSecretKey));
}

#[test]
fn an_owner_address_is_written_with_its_checksum() {
    assert_eq!(
        owner_address("0xd8da6bf26964af9d7eed9e03e53415d37aa96045"),
        Ok("0xd8dA6BF26964aF9D7eEd9e03E53415D37aA96045".to_string())
    );
    assert_eq!(
        owner_address("d8da6bf26964af9d7eed9e03e53415d37aa96045"),
        Ok("0xd8dA6BF26964aF9D7eEd9e03E53415D37aA96045".to_string())
    );
}

#[test]
fn an_unreadable_owner_address_is_an_error() {
    assert_eq!(owner_address("not an address"), Err(IdentityError::InvalidOwnerAddress));
    assert_eq!(owner_address("0x1234"), Err(IdentityError::InvalidOwnerAddress));
    assert_eq!(owner_address(""), Err(IdentityError::InvalidOwnerAddress));
}
