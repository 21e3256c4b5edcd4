use dash_evo_tool::key_info::{
    after_key_saved, after_key_validation, private_key_from_input, signed_message_text,
    signing_key, KeyType, KeyValidation, PrivateKeyData, PrivateKeyInputError, SignError,
};
use dash_evo_tool::pricing::{get_min_token_price, TokenPricingSchedule};
use dash_evo_tool::tokens::{
    group_index, token_change_item_label, update_group_based_on_change_item,
    AuthorizedActionTakers, ChangeNotAllowed, Group, GroupForChange, GroupMember,
    TokenConfigurationChangeItem,
};
use std::collections::BTreeMap;

#[test]
fn hexadecimal_input_of_thirty_two_bytes_is_the_key() {
    let text = "000102030405060708090a0b0c0d0e0f101112131415161718191A1B1C1D1E1F";
    let mut expected = [0u8; 32];
    for i in 0..32 {
        expected[i] = i as u8;
    }
    assert_eq!(private_key_from_input(text, None), Ok(expected));
    assert_eq!(private_key_from_input(text, Some([9u8; 32])), Ok(expected));
}

#[test]
fn hexadecimal_input_of_another_length_is_refused() {
    assert_eq!(
        private_key_from_input("00ff", Some([9u8; 32])),
        Err(PrivateKeyInputError::NotThirtyTwoBytes)
    );
    assert_eq!(private_key_from_input("", None), Err(PrivateKeyInputError::NotThirtyTwoBytes));
    assert_eq!(
        PrivateKeyInputError::NotThirtyTwoBytes.message(),
        "Private key not 32 bytes"
    );
}

#[test]
fn other_input_is_read_as_wallet_import_format() {
    assert_eq!(private_key_from_input("cVt4o7BGAig1UXywgGSmARhxMdzP5qvQsxKkSsc1XEkw3tDTQFpy", Some([7u8; 32])), Ok([7u8; 32]));
    assert_eq!(
        private_key_from_input("not a key", None),
        Err(PrivateKeyInputError::InvalidHexOrWif)
    );
    assert_eq!(private_key_from_input("abc", None), Err(PrivateKeyInputError::InvalidHexOrWif));
    assert_eq!(
        PrivateKeyInputError::InvalidHexOrWif.message(),
        "Invalid hex string or WIF for private key."
    );
}

#[test]
fn key_validation_outcomes() {
    assert_eq!(after_key_validation(Ok(true)), KeyValidation::Store);
    assert_eq!(
        after_key_validation(Ok(false)),
        KeyValidation::Refuse("Private key does not match the public key.".to_string())
    );
    assert_eq!(
        after_key_validation(Err("bad curve".to_string())),
        KeyValidation::Refuse("Issue verifying private key bad curve".to_string())
    );
    assert_eq!(after_key_saved(Ok(())), None);
    assert_eq!(
        after_key_saved(Err("disk full".to_string())),
        Some("Issue saving: disk full".to_string())
    );
}

#[test]
fn signing_needs_a_key_in_the_clear_of_an_ecdsa_kind() {
    let key = [3u8; 32];
    let other = [4u8; 32];
    assert_eq!(signing_key(&None, Some(other), KeyType::ECDSA_SECP256K1), Err(SignError::PrivateKeyNotAvailable));
    assert_eq!(signing_key(&Some(PrivateKeyData::Clear(key)), Some(other), KeyType::ECDSA_SECP256K1), Ok(key));
    assert_eq!(signing_key(&Some(PrivateKeyData::AlwaysClear(key)), None, KeyType::ECDSA_HASH160), Ok(key));
    assert_eq!(signing_key(&Some(PrivateKeyData::Encrypted), Some(other), KeyType::ECDSA_HASH160), Ok(other));
    assert_eq!(
        signing_key(&Some(PrivateKeyData::AtWalletDerivationPath), None, KeyType::ECDSA_HASH160),
        Err(SignError::PrivateKeyNotAvailable)
    );
    assert_eq!(
        signing_key(&Some(PrivateKeyData::Clear(key)), None, KeyType::BLS12_381),
        Err(SignError::UnsupportedKeyType)
    );
    assert_eq!(
        signing_key(&Some(PrivateKeyData::Clear(key)), None, KeyType::BIP13_SCRIPT_HASH),
        Err(SignError::UnsupportedKeyType)
    );
    assert_eq!(SignError::PrivateKeyNotAvailable.message(), "Private key is not available.");
    assert_eq!(SignError::UnsupportedKeyType.message(), "Unsupported key type for signing.");
}

#[test]
fn signed_message_is_the_header_and_the_signature_in_base64() {
    let text = signed_message_text(&[0u8; 64]);
    assert_eq!(text.len(), 88);
    assert_eq!(text, format!("I{}=", "A".repeat(86)));
    let mut signature = [0u8; 64];
    signature[0] = 0xff;
    signature[63] = 0x01;
    let text = signed_message_text(&signature);
    assert!(text.starts_with("IP8A"));
    assert!(text.ends_with("AAE="));
}

#[test]
fn min_token_price_is_the_price_of_the_smallest_amount() {
    assert_eq!(get_min_token_price(&TokenPricingSchedule::SinglePrice(42)), 42);
    assert_eq!(get_min_token_price(&TokenPricingSchedule::SetPrices(BTreeMap::new())), 0);
    assert_eq!(
        get_min_token_price(&TokenPricingSchedule::SetPrices(BTreeMap::from([
            (100, 5),
            (1, 9),
            (10, 7)
        ]))),
        9
    );
    assert_eq!(
        get_min_token_price(&TokenPricingSchedule::SetPrices(BTreeMap::from([(u64::MAX, 3)]))),
        3
    );
    let mut tiers = BTreeMap::new();
    tiers.insert(7, 70);
    tiers.insert(3, 30);
    tiers.insert(0, 1);
    tiers.insert(7, 5);
    assert_eq!(get_min_token_price(&TokenPricingSchedule::SetPrices(tiers)), 1);
}

#[test]
fn token_change_item_labels() {
    use_labels(&[
        (TokenConfigurationChangeItem::TokenConfigurationNoChange, "No Change"),
        (TokenConfigurationChangeItem::Conventions, "Conventions"),
        (TokenConfigurationChangeItem::MaxSupplyAdminGroup, "Max Supply Admin Group"),
        (
            TokenConfigurationChangeItem::NewTokensDestinationIdentity,
            "New\u{2011}Tokens Destination",
        ),
        (
            TokenConfigurationChangeItem::MintingAllowChoosingDestinationControlGroup,
            "Minting Allow Choosing Destination Control Group",
        ),
        (TokenConfigurationChangeItem::DestroyFrozenFunds, "Destroy Frozen Funds"),
        (TokenConfigurationChangeItem::EmergencyActionAdminGroup, "Emergency Action Admin Group"),
        (TokenConfigurationChangeItem::MainControlGroup, "Main Control Group"),
    ]);
}

fn use_labels(cases: &[(TokenConfigurationChangeItem, &str)]) {
    for (item, label) in cases {
        assert_eq!(token_change_item_label(item), *label);
    }
}

fn groups() -> Vec<(u16, Group)> {
    vec![
        (
            0,
            Group {
                members: vec![
                    GroupMember { identity: [1u8; 32], power: 1 },
                    GroupMember { identity: [2u8; 32], power: 2 },
                ],
                required_power: 2,
            },
        ),
        (
            3,
            Group {
                members: vec![GroupMember { identity: [1u8; 32], power: 5 }],
                required_power: 5,
            },
        ),
    ]
}

fn decide(takers: AuthorizedActionTakers, identity: u8, main: Option<u16>) -> GroupForChange {
    update_group_based_on_change_item(&takers, &[9u8; 32], &[identity; 32], main, &groups())
}

fn refused(error: ChangeNotAllowed) -> GroupForChange {
    GroupForChange { group: None, error: Some(error), is_unilateral_group_member: false }
}

fn allowed(group: Option<usize>, unilateral: bool) -> GroupForChange {
    GroupForChange { group, error: None, is_unilateral_group_member: unilateral }
}

#[test]
fn change_by_no_one_owner_or_identity() {
    assert_eq!(decide(AuthorizedActionTakers::NoOne, 9, None), refused(ChangeNotAllowed::NoOne));
    assert_eq!(decide(AuthorizedActionTakers::ContractOwner, 9, None), allowed(None, false));
    assert_eq!(
        decide(AuthorizedActionTakers::ContractOwner, 1, None),
        refused(ChangeNotAllowed::NotContractOwner)
    );
    assert_eq!(
        decide(AuthorizedActionTakers::Identity([1u8; 32]), 1, None),
        allowed(None, false)
    );
    assert_eq!(
        decide(AuthorizedActionTakers::Identity([1u8; 32]), 2, None),
        refused(ChangeNotAllowed::NotTheAuthorizedIdentity)
    );
}

#[test]
fn change_by_a_group() {
    assert_eq!(decide(AuthorizedActionTakers::Group(0), 1, None), allowed(Some(0), false));
    assert_eq!(decide(AuthorizedActionTakers::Group(0), 2, None), allowed(Some(0), true));
    assert_eq!(decide(AuthorizedActionTakers::Group(0), 7, None), allowed(Some(0), false));
    assert_eq!(decide(AuthorizedActionTakers::Group(3), 1, Some(0)), allowed(Some(1), true));
    assert_eq!(
        decide(AuthorizedActionTakers::Group(2), 1, None),
        refused(ChangeNotAllowed::GroupNotFound(2))
    );
    assert_eq!(decide(AuthorizedActionTakers::MainGroup, 1, Some(3)), allowed(Some(1), true));
    assert_eq!(
        decide(AuthorizedActionTakers::MainGroup, 1, None),
        refused(ChangeNotAllowed::NoMainControlGroup)
    );
    assert_eq!(
        decide(AuthorizedActionTakers::MainGroup, 1, Some(8)),
        refused(ChangeNotAllowed::GroupNotFound(8))
    );
    assert_eq!(group_index(&groups(), 3), Some(1));
    assert_eq!(group_index(&groups(), 1), None);
    assert_eq!(groups()[0].1.power_of(&[2u8; 32]), Some(2));
    assert_eq!(groups()[0].1.power_of(&[3u8; 32]), None);
}

#[test]
fn change_refusal_messages() {
    assert_eq!(ChangeNotAllowed::NoOne.message(), "This action is not allowed on this token");
    assert_eq!(
        ChangeNotAllowed::NotContractOwner.message(),
        "You are not allowed to perform this action. Only the contract owner is."
    );
    assert_eq!(
        ChangeNotAllowed::NotTheAuthorizedIdentity.message(),
        "You are not allowed to perform this action"
    );
    assert_eq!(
        ChangeNotAllowed::NoMainControlGroup.message(),
        "Invalid contract: No main control group, though one should exist"
    );
}
