use dash_evo_tool::helpers::{Purpose, SecurityLevel};
use dash_evo_tool::key_info::PrivateKeyData;
use dash_evo_tool::key_storage::{KeyStorage, StoredKey};

fn key(purpose: Purpose, id: u32, tag: u8) -> StoredKey {
    StoredKey {
        purpose,
        id,
        security_level: SecurityLevel::HIGH,
        public_key: vec![tag; 33],
        private_key: PrivateKeyData::Clear([tag; 32]),
    }
}

fn storage() -> KeyStorage {
    let mut storage = KeyStorage::new();
    storage.insert_non_encrypted(Purpose::AUTHENTICATION, 0, SecurityLevel::HIGH, vec![1; 33], [1; 32]);
    storage.insert_non_encrypted(Purpose::TRANSFER, 0, SecurityLevel::HIGH, vec![2; 33], [2; 32]);
    storage.insert_non_encrypted(Purpose::AUTHENTICATION, 1, SecurityLevel::HIGH, vec![3; 33], [3; 32]);
    storage
}

#[test]
fn stored_keys_are_found_by_purpose_and_number() {
    let storage = storage();
    assert_eq!(
        storage.private_keys,
        vec![
            key(Purpose::AUTHENTICATION, 0, 1),
            key(Purpose::TRANSFER, 0, 2),
            key(Purpose::AUTHENTICATION, 1, 3),
        ]
    );
    assert!(storage.has_distinct_keys());
    assert_eq!(storage.position(Purpose::AUTHENTICATION, 0), Some(0));
    assert_eq!(storage.position(Purpose::TRANSFER, 0), Some(1));
    assert_eq!(storage.position(Purpose::AUTHENTICATION, 1), Some(2));
    assert_eq!(storage.position(Purpose::TRANSFER, 1), None);
    assert_eq!(storage.position(Purpose::VOTING, 0), None);
    assert_eq!(
        storage.private_key_data(Purpose::TRANSFER, 0),
        Some(PrivateKeyData::Clear([2; 32]))
    );
    assert_eq!(storage.private_key_data(Purpose::OWNER, 0), None);
    assert_eq!(KeyStorage::new().position(Purpose::AUTHENTICATION, 0), None);
    assert!(KeyStorage::new().has_distinct_keys());
}

#[test]
fn storing_a_key_again_replaces_it_in_its_place() {
    let mut storage = storage();
    storage.insert_non_encrypted(Purpose::TRANSFER, 0, SecurityLevel::CRITICAL, vec![9; 33], [9; 32]);
    assert_eq!(
        storage.private_keys,
        vec![
            key(Purpose::AUTHENTICATION, 0, 1),
            StoredKey {
                purpose: Purpose::TRANSFER,
                id: 0,
                security_level: SecurityLevel::CRITICAL,
                public_key: vec![9; 33],
                private_key: PrivateKeyData::Clear([9; 32]),
            },
            key(Purpose::AUTHENTICATION, 1, 3),
        ]
    );
    assert!(storage.has_distinct_keys());
}

#[test]
fn removed_key_is_gone_and_the_others_stay() {
    let mut storage = storage();
    storage.remove(Purpose::AUTHENTICATION, 0);
    assert_eq!(
        storage.private_keys,
        vec![key(Purpose::TRANSFER, 0, 2), key(Purpose::AUTHENTICATION, 1, 3)]
    );
    storage.remove(Purpose::AUTHENTICATION, 0);
    storage.remove(Purpose::VOTING, 7);
    assert_eq!(storage.private_keys.len(), 2);
    storage.remove(Purpose::AUTHENTICATION, 1);
    storage.remove(Purpose::TRANSFER, 0);
    assert_eq!(storage, KeyStorage::new());
}

#[test]
fn keys_with_one_purpose_and_number_are_told_apart_from_distinct_keys() {
    let twice = KeyStorage {
        private_keys: vec![
            key(Purpose::AUTHENTICATION, 0, 1),
            key(Purpose::TRANSFER, 0, 2),
            key(Purpose::AUTHENTICATION, 0, 3),
        ],
    };
    assert!(!twice.has_distinct_keys());
    assert_eq!(twice.position(Purpose::AUTHENTICATION, 0), Some(0));
    assert_eq!(twice.clone(), twice);
}
