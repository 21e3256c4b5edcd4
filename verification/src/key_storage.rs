//! The keys of an identity as the client keeps them: each public key with
//! where its private key is held.

use crate::helpers::{Purpose, SecurityLevel};
use crate::key_info::PrivateKeyData;
use crate::views::views;
use vstd::prelude::*;

verus! {

/// A key of an identity, with where its private key is held.
#[derive(Debug, PartialEq, Eq)]
pub struct StoredKey {
    pub purpose: Purpose,
    /// The number of the key within the identity.
    pub id: u32,
    pub security_level: SecurityLevel,
    pub public_key: Vec<u8>,
    pub private_key: PrivateKeyData,
}

pub struct StoredKeyView {
    pub purpose: Purpose,
    pub id: u32,
    pub security_level: SecurityLevel,
    pub public_key: Seq<u8>,
    pub private_key: PrivateKeyData,
}

impl View for StoredKey {
    type V = StoredKeyView;

    open spec fn view(&self) -> StoredKeyView {
        StoredKeyView {
            purpose: self.purpose,
            id: self.id,
            security_level: self.security_level,
            public_key: self.public_key@,
            private_key: self.private_key,
        }
    }
}

impl Clone for StoredKey {
    fn clone(&self) -> (copy: StoredKey)
        ensures
            copy@ == self@,
    {
        StoredKey {
            purpose: self.purpose,
            id: self.id,
            security_level: self.security_level,
            public_key: self.public_key.clone(),
            private_key: self.private_key,
        }
    }
}

/// The place of the key of `purpose` with the number `id` in the list, if
/// the list holds it: the first such place.
pub open spec fn spec_key_position(keys: Seq<StoredKeyView>, purpose: Purpose, id: u32) -> Option<
    int,
>
    decreases keys.len(),
{
    if keys.len() == 0 {
        None
    } else if keys.first().purpose == purpose && keys.first().id == id {
        Some(0)
    } else {
        match spec_key_position(keys.drop_first(), purpose, id) {
            Some(k) => Some(k + 1),
            None => None,
        }
    }
}

/// The place that `spec_key_position` gives is a place of the key, no
/// earlier place is, and without a place the list has no such key.
pub proof fn lemma_key_position(keys: Seq<StoredKeyView>, purpose: Purpose, id: u32)
    ensures
        match spec_key_position(keys, purpose, id) {
            Some(k) => 0 <= k < keys.len() && keys[k].purpose == purpose && keys[k].id == id
                && forall|j: int|
                0 <= j < k ==> !((#[trigger] keys[j]).purpose == purpose && keys[j].id == id),
            None => forall|j: int|
                0 <= j < keys.len() ==> !((#[trigger] keys[j]).purpose == purpose && keys[j].id
                    == id),
        },
    decreases keys.len(),
{
    if keys.len() > 0 && !(keys.first().purpose == purpose && keys.first().id == id) {
        let rest = keys.drop_first();
        lemma_key_position(rest, purpose, id);
        match spec_key_position(rest, purpose, id) {
            Some(k) => {
                assert(keys[k + 1] == rest[k]);
                assert forall|j: int| 0 <= j < k + 1 implies !((#[trigger] keys[j]).purpose
                    == purpose && keys[j].id == id) by {
                    if j > 0 {
                        assert(keys[j] == rest[j - 1]);
                    }
                }
            },
            None => {
                assert forall|j: int| 0 <= j < keys.len() implies !((#[trigger] keys[j]).purpose
                    == purpose && keys[j].id == id) by {
                    if j > 0 {
                        assert(keys[j] == rest[j - 1]);
                    }
                }
            },
        }
    }
}

/// The keys of an identity. A purpose and a number name one key at most.
#[derive(Debug, PartialEq, Eq)]
pub struct KeyStorage {
    pub private_keys: Vec<StoredKey>,
}

impl View for KeyStorage {
    type V = Seq<StoredKeyView>;

    open spec fn view(&self) -> Seq<StoredKeyView> {
        views(self.private_keys@)
    }
}

impl Clone for KeyStorage {
    fn clone(&self) -> (copy: KeyStorage)
        ensures
            copy@ == self@,
    {
        let mut private_keys: Vec<StoredKey> = Vec::new();
        let mut i: usize = 0;
        while i < self.private_keys.len()
            invariant
                i <= self.private_keys.len(),
                views(private_keys@) == self@.take(i as int),
            decreases self.private_keys.len() - i,
        {
            let ghost so_far = views(private_keys@);
            private_keys.push(self.private_keys[i].clone());
            assert(views(private_keys@) =~= so_far.push(self.private_keys@[i as int]@));
            assert(self@.take(i + 1) =~= self@.take(i as int).push(self@[i as int]));
            i = i + 1;
        }
        assert(self@.take(i as int) =~= self@);
        KeyStorage { private_keys }
    }
}

/// No two keys of the list have the same purpose and number.
pub open spec fn keys_are_distinct(keys: Seq<StoredKeyView>) -> bool {
    forall|i: int, j: int|
        0 <= i < j < keys.len() ==> !((#[trigger] keys[i]).purpose == (#[trigger] keys[j]).purpose
            && keys[i].id == keys[j].id)
}

/// The list after `key` has been stored: in the place of the key with its
/// purpose and number, where there is one, else at the end.
pub open spec fn spec_with_key(keys: Seq<StoredKeyView>, key: StoredKeyView) -> Seq<StoredKeyView> {
    match spec_key_position(keys, key.purpose, key.id) {
        Some(k) => keys.update(k, key),
        None => keys.push(key),
    }
}

/// The list without the key of `purpose` with the number `id`.
pub open spec fn spec_without_key(keys: Seq<StoredKeyView>, purpose: Purpose, id: u32) -> Seq<
    StoredKeyView,
> {
    match spec_key_position(keys, purpose, id) {
        Some(k) => keys.remove(k),
        None => keys,
    }
}

impl KeyStorage {
    /// No two keys have the same purpose and number.
    pub open spec fn wf(&self) -> bool {
        keys_are_distinct(self@)
    }

    /// A storage without keys.
    pub fn new() -> (storage: KeyStorage)
        ensures
            storage@ == Seq::<StoredKeyView>::empty(),
            storage.wf(),
    {
        let storage = KeyStorage { private_keys: Vec::new() };
        assert(storage@ =~= Seq::<StoredKeyView>::empty());
        storage
    }

    /// Tells whether no two keys have the same purpose and number.
    pub fn has_distinct_keys(&self) -> (distinct: bool)
        ensures
            distinct == self.wf(),
    {
        let mut j: usize = 0;
        while j < self.private_keys.len()
            invariant
                j <= self.private_keys.len(),
                keys_are_distinct(self@.take(j as int)),
            decreases self.private_keys.len() - j,
        {
            let mut i: usize = 0;
            while i < j
                invariant
                    i <= j < self.private_keys.len(),
                    forall|k: int|
                        0 <= k < i ==> !((#[trigger] self@[k]).purpose == self@[j as int].purpose
                            && self@[k].id == self@[j as int].id),
                decreases j - i,
            {
                if self.private_keys[i].purpose == self.private_keys[j].purpose
                    && self.private_keys[i].id == self.private_keys[j].id {
                    assert(self@[i as int].purpose == self@[j as int].purpose && self@[i as int].id
                        == self@[j as int].id);
                    return false;
                }
                i = i + 1;
            }
            j = j + 1;
        }
        assert(self@.take(j as int) =~= self@);
        true
    }

    /// The place of the key of `purpose` with the number `id`.
    pub fn position(&self, purpose: Purpose, id: u32) -> (position: Option<usize>)
        ensures
            match position {
                Some(k) => spec_key_position(self@, purpose, id) == Some(k as int) && k
                    < self.private_keys@.len(),
                None => spec_key_position(self@, purpose, id) is None,
            },
    {
        let mut i: usize = 0;
        assert(self@.skip(0) =~= self@);
        while i < self.private_keys.len()
            invariant
                i <= self.private_keys.len(),
                spec_key_position(self@, purpose, id) == match spec_key_position(
                    self@.skip(i as int),
                    purpose,
                    id,
                ) {
                    Some(k) => Some(k + i),
                    None => None,
                },
            decreases self.private_keys.len() - i,
        {
            proof {
                assert(self@.skip(i as int).first() == self.private_keys@[i as int]@);
                assert(self@.skip(i as int).drop_first() =~= self@.skip(i + 1));
            }
            if self.private_keys[i].purpose == purpose && self.private_keys[i].id == id {
                return Some(i);
            }
            i = i + 1;
        }
        None
    }

    /// Stores a private key in the clear with its public key: in the place
    /// of the key with the same purpose and number, where the storage
    /// holds one, else as a further key.
    pub fn insert_non_encrypted(
        &mut self,
        purpose: Purpose,
        id: u32,
        security_level: SecurityLevel,
        public_key: Vec<u8>,
        private_key: [u8; 32],
    )
        requires
            old(self).wf(),
        ensures
            final(self).wf(),
            final(self)@ == spec_with_key(
                old(self)@,
                StoredKeyView {
                    purpose,
                    id,
                    security_level,
                    public_key: public_key@,
                    private_key: PrivateKeyData::Clear(private_key),
                },
            ),
    {
        let key = StoredKey {
            purpose,
            id,
            security_level,
            public_key,
            private_key: PrivateKeyData::Clear(private_key),
        };
        let ghost stored = key@;
        proof {
            lemma_key_position(self@, purpose, id);
        }
        match self.position(purpose, id) {
            Some(k) => {
                self.private_keys.set(k, key);
                assert(self@ =~= old(self)@.update(k as int, stored));
            },
            None => {
                self.private_keys.push(key);
                assert(self@ =~= old(self)@.push(stored));
            },
        }
    }

    /// Takes the key of `purpose` with the number `id` out of the storage.
    pub fn remove(&mut self, purpose: Purpose, id: u32)
        requires
            old(self).wf(),
        ensures
            final(self).wf(),
            final(self)@ == spec_without_key(old(self)@, purpose, id),
            spec_key_position(final(self)@, purpose, id) is None,
    {
        proof {
            lemma_key_position(self@, purpose, id);
        }
        match self.position(purpose, id) {
            Some(k) => {
                self.private_keys.remove(k);
                assert(self@ =~= old(self)@.remove(k as int));
                proof {
                    lemma_key_position(self@, purpose, id);
                    if spec_key_position(self@, purpose, id) is Some {
                        let j = spec_key_position(self@, purpose, id)->0;
                        if j < k {
                            assert(self@[j] == old(self)@[j]);
                        } else {
                            assert(self@[j] == old(self)@[j + 1]);
                        }
                    }
                }
            },
            None => {},
        }
    }

    /// Where the private key of the key of `purpose` with the number `id`
    /// is held, if the storage holds the key.
    pub fn private_key_data(&self, purpose: Purpose, id: u32) -> (held: Option<PrivateKeyData>)
        ensures
            held == match spec_key_position(self@, purpose, id) {
                Some(k) => Some(self@[k].private_key),
                None => None,
            },
    {
        match self.position(purpose, id) {
            Some(k) => Some(self.private_keys[k].private_key),
            None => None,
        }
    }
}

} // verus!
