//! Key derivation paths, what they are used for, and how they are stored.

use vstd::prelude::*;

verus! {

/// What a derivation path is used for.
#[derive(Clone, Copy, Debug, PartialEq, Eq, Structural)]
pub enum DerivationPathReference {
    Unknown,
    BIP32,
    BIP44,
    BlockchainIdentities,
    ProviderFunds,
    ProviderVotingKeys,
    ProviderOperatorKeys,
    ProviderOwnerKeys,
    ContactBasedFunds,
    ContactBasedFundsRoot,
    ContactBasedFundsExternal,
    BlockchainIdentityCreditRegistrationFunding,
    BlockchainIdentityCreditTopupFunding,
    BlockchainIdentityCreditInvitationFunding,
    ProviderPlatformNodeKeys,
    Root,
}

impl DerivationPathReference {
    /// The number a reference is stored as.
    pub open spec fn spec_code(self) -> u32 {
        match self {
            DerivationPathReference::Unknown => 0,
            DerivationPathReference::BIP32 => 1,
            DerivationPathReference::BIP44 => 2,
            DerivationPathReference::BlockchainIdentities => 3,
            DerivationPathReference::ProviderFunds => 4,
            DerivationPathReference::ProviderVotingKeys => 5,
            DerivationPathReference::ProviderOperatorKeys => 6,
            DerivationPathReference::ProviderOwnerKeys => 7,
            DerivationPathReference::ContactBasedFunds => 8,
            DerivationPathReference::ContactBasedFundsRoot => 9,
            DerivationPathReference::ContactBasedFundsExternal => 10,
            DerivationPathReference::BlockchainIdentityCreditRegistrationFunding => 11,
            DerivationPathReference::BlockchainIdentityCreditTopupFunding => 12,
            DerivationPathReference::BlockchainIdentityCreditInvitationFunding => 13,
            DerivationPathReference::ProviderPlatformNodeKeys => 14,
            DerivationPathReference::Root => 255,
        }
    }

    /// The number a reference is stored as.
    pub fn code(&self) -> (code: u32)
        ensures
            code == self.spec_code(),
    {
        match self {
            DerivationPathReference::Unknown => 0,
            DerivationPathReference::BIP32 => 1,
            DerivationPathReference::BIP44 => 2,
            DerivationPathReference::BlockchainIdentities => 3,
            DerivationPathReference::ProviderFunds => 4,
            DerivationPathReference::ProviderVotingKeys => 5,
            DerivationPathReference::ProviderOperatorKeys => 6,
            DerivationPathReference::ProviderOwnerKeys => 7,
            DerivationPathReference::ContactBasedFunds => 8,
            DerivationPathReference::ContactBasedFundsRoot => 9,
            DerivationPathReference::ContactBasedFundsExternal => 10,
            DerivationPathReference::BlockchainIdentityCreditRegistrationFunding => 11,
            DerivationPathReference::BlockchainIdentityCreditTopupFunding => 12,
            DerivationPathReference::BlockchainIdentityCreditInvitationFunding => 13,
            DerivationPathReference::ProviderPlatformNodeKeys => 14,
            DerivationPathReference::Root => 255,
        }
    }

    /// The reference stored as `code`, if `code` stands for one.
    pub open spec fn spec_from_code(code: u32) -> Option<DerivationPathReference> {
        if code == 0 {
            Some(DerivationPathReference::Unknown)
        } else if code == 1 {
            Some(DerivationPathReference::BIP32)
        } else if code == 2 {
            Some(DerivationPathReference::BIP44)
        } else if code == 3 {
            Some(DerivationPathReference::BlockchainIdentities)
        } else if code == 4 {
            Some(DerivationPathReference::ProviderFunds)
        } else if code == 5 {
            Some(DerivationPathReference::ProviderVotingKeys)
        } else if code == 6 {
            Some(DerivationPathReference::ProviderOperatorKeys)
        } else if code == 7 {
            Some(DerivationPathReference::ProviderOwnerKeys)
        } else if code == 8 {
            Some(DerivationPathReference::ContactBasedFunds)
        } else if code == 9 {
            Some(DerivationPathReference::ContactBasedFundsRoot)
        } else if code == 10 {
            Some(DerivationPathReference::ContactBasedFundsExternal)
        } else if code == 11 {
            Some(DerivationPathReference::BlockchainIdentityCreditRegistrationFunding)
        } else if code == 12 {
            Some(DerivationPathReference::BlockchainIdentityCreditTopupFunding)
        } else if code == 13 {
            Some(DerivationPathReference::BlockchainIdentityCreditInvitationFunding)
        } else if code == 14 {
            Some(DerivationPathReference::ProviderPlatformNodeKeys)
        } else if code == 255 {
            Some(DerivationPathReference::Root)
        } else {
            None
        }
    }

    /// The reference stored as `code`, if `code` stands for one.
    pub fn from_code(code: u32) -> (reference: Option<DerivationPathReference>)
        ensures
            reference == Self::spec_from_code(code),
            match reference {
                Some(r) => r.spec_code() == code,
                None => forall|r: DerivationPathReference| r.spec_code() != code,
            },
    {
        match code {
            0 => Some(DerivationPathReference::Unknown),
            1 => Some(DerivationPathReference::BIP32),
            2 => Some(DerivationPathReference::BIP44),
            3 => Some(DerivationPathReference::BlockchainIdentities),
            4 => Some(DerivationPathReference::ProviderFunds),
            5 => Some(DerivationPathReference::ProviderVotingKeys),
            6 => Some(DerivationPathReference::ProviderOperatorKeys),
            7 => Some(DerivationPathReference::ProviderOwnerKeys),
            8 => Some(DerivationPathReference::ContactBasedFunds),
            9 => Some(DerivationPathReference::ContactBasedFundsRoot),
            10 => Some(DerivationPathReference::ContactBasedFundsExternal),
            11 => Some(DerivationPathReference::BlockchainIdentityCreditRegistrationFunding),
            12 => Some(DerivationPathReference::BlockchainIdentityCreditTopupFunding),
            13 => Some(DerivationPathReference::BlockchainIdentityCreditInvitationFunding),
            14 => Some(DerivationPathReference::ProviderPlatformNodeKeys),
            255 => Some(DerivationPathReference::Root),
            _ => None,
        }
    }
}

/// The flags that say what kind of keys a derivation path yields.
#[derive(Clone, Copy, Debug, PartialEq, Eq, Structural)]
pub struct DerivationPathType {
    pub bits: u32,
}

/// The flags that a [`DerivationPathType`] can hold.
pub const DERIVATION_PATH_TYPE_FLAGS: u32 = 0xff;

impl DerivationPathType {
    /// The flags in `bits`; bits that stand for no flag are dropped.
    pub fn from_bits_truncate(bits: u32) -> (path_type: DerivationPathType)
        ensures
            path_type.bits == bits & DERIVATION_PATH_TYPE_FLAGS,
    {
        DerivationPathType { bits: bits & DERIVATION_PATH_TYPE_FLAGS }
    }
}

/// A key derivation path: the child numbers from the master key down.
#[derive(Debug, PartialEq, Eq)]
pub struct DerivationPath {
    pub components: Vec<u32>,
}

impl View for DerivationPath {
    type V = Seq<u32>;

    open spec fn view(&self) -> Seq<u32> {
        self.components@
    }
}

impl Clone for DerivationPath {
    fn clone(&self) -> (copy: DerivationPath)
        ensures
            copy@ == self@,
    {
        DerivationPath { components: self.components.clone() }
    }
}

/// The four bytes of a child number, the highest first.
pub open spec fn spec_child_bytes(child: u32) -> Seq<u8> {
    seq![
        ((child >> 24) & 0xff) as u8,
        ((child >> 16) & 0xff) as u8,
        ((child >> 8) & 0xff) as u8,
        (child & 0xff) as u8,
    ]
}

/// The child number that four bytes stand for, the highest first.
pub open spec fn spec_child_of(b0: u8, b1: u8, b2: u8, b3: u8) -> u32 {
    ((b0 as u32) << 24) | ((b1 as u32) << 16) | ((b2 as u32) << 8) | (b3 as u32)
}

/// A path as it is stored: the four bytes of each child number in order.
pub open spec fn spec_path_bytes(path: Seq<u32>) -> Seq<u8>
    decreases path.len(),
{
    if path.len() == 0 {
        Seq::empty()
    } else {
        spec_path_bytes(path.drop_last()) + spec_child_bytes(path.last())
    }
}

/// The path that was stored as `bytes`, for a number of bytes that is a
/// multiple of four.
pub open spec fn spec_path_of_bytes(bytes: Seq<u8>) -> Seq<u32> {
    Seq::new(
        bytes.len() / 4,
        |k: int| spec_child_of(bytes[4 * k], bytes[4 * k + 1], bytes[4 * k + 2], bytes[4 * k + 3]),
    )
}

/// A stored path has four bytes for each child number.
pub proof fn lemma_path_bytes_len(path: Seq<u32>)
    ensures
        spec_path_bytes(path).len() == 4 * path.len(),
    decreases path.len(),
{
    if path.len() > 0 {
        lemma_path_bytes_len(path.drop_last());
    }
}

/// Reading a stored path gives the path back.
pub proof fn lemma_path_round_trip(path: Seq<u32>)
    ensures
        spec_path_of_bytes(spec_path_bytes(path)) == path,
    decreases path.len(),
{
    lemma_path_bytes_len(path);
    if path.len() > 0 {
        let rest = path.drop_last();
        let last = path.last();
        lemma_path_round_trip(rest);
        lemma_path_bytes_len(rest);
        let bytes = spec_path_bytes(path);
        let read = spec_path_of_bytes(bytes);
        assert forall|k: int| 0 <= k < path.len() implies read[k] == path[k] by {
            if k < rest.len() {
                let inner = spec_path_bytes(rest);
                assert(bytes[4 * k] == inner[4 * k]);
                assert(bytes[4 * k + 1] == inner[4 * k + 1]);
                assert(bytes[4 * k + 2] == inner[4 * k + 2]);
                assert(bytes[4 * k + 3] == inner[4 * k + 3]);
                assert(spec_path_of_bytes(inner)[k] == rest[k]);
            } else {
                let child = spec_child_bytes(last);
                assert(bytes[4 * k] == child[0]);
                assert(bytes[4 * k + 1] == child[1]);
                assert(bytes[4 * k + 2] == child[2]);
                assert(bytes[4 * k + 3] == child[3]);
                assert(spec_child_of(
                    ((last >> 24) & 0xff) as u8,
                    ((last >> 16) & 0xff) as u8,
                    ((last >> 8) & 0xff) as u8,
                    (last & 0xff) as u8,
                ) == last) by (bit_vector);
            }
        }
        assert(read =~= path);
    } else {
        assert(spec_path_of_bytes(spec_path_bytes(path)) =~= path);
    }
}

impl DerivationPath {
    /// The path as it is stored.
    pub fn to_bytes(&self) -> (bytes: Vec<u8>)
        ensures
            bytes@ == spec_path_bytes(self@),
    {
        let mut bytes: Vec<u8> = Vec::new();
        let mut i: usize = 0;
        while i < self.components.len()
            invariant
                i <= self.components.len(),
                bytes@ == spec_path_bytes(self.components@.take(i as int)),
            decreases self.components.len() - i,
        {
            let child = self.components[i];
            let ghost before = bytes@;
            bytes.push(((child >> 24) & 0xff) as u8);
            bytes.push(((child >> 16) & 0xff) as u8);
            bytes.push(((child >> 8) & 0xff) as u8);
            bytes.push((child & 0xff) as u8);
            proof {
                assert(self.components@.take(i + 1).drop_last() =~= self.components@.take(
                    i as int,
                ));
                assert(self.components@.take(i + 1).last() == child);
                assert(bytes@ =~= before + spec_child_bytes(child));
            }
            i = i + 1;
        }
        assert(self.components@.take(i as int) =~= self.components@);
        bytes
    }

    /// The path that was stored as `bytes`, if the number of bytes is a
    /// multiple of four.
    pub fn from_bytes(bytes: &Vec<u8>) -> (path: Option<DerivationPath>)
        ensures
            path is Some <==> bytes@.len() % 4 == 0,
            path matches Some(p) ==> p@ == spec_path_of_bytes(bytes@),
    {
        if bytes.len() % 4 != 0 {
            return None;
        }
        let mut components: Vec<u32> = Vec::new();
        let mut at: usize = 0;
        while at < bytes.len()
            invariant
                at <= bytes@.len(),
                at % 4 == 0,
                bytes@.len() % 4 == 0,
                components@.len() == at / 4,
                forall|j: int|
                    0 <= j < components@.len() ==> components@[j] == spec_path_of_bytes(
                        bytes@,
                    )[j],
            decreases bytes.len() - at,
        {
            let b0 = bytes[at];
            let b1 = bytes[at + 1];
            let b2 = bytes[at + 2];
            let b3 = bytes[at + 3];
            let child: u32 = ((b0 as u32) << 24) | ((b1 as u32) << 16) | ((b2 as u32) << 8) | (
            b3 as u32);
            components.push(child);
            at = at + 4;
        }
        assert(components@ =~= spec_path_of_bytes(bytes@));
        Some(DerivationPath { components })
    }

    /// Tells whether two paths have the same child numbers.
    pub fn same_as(&self, other: &DerivationPath) -> (same: bool)
        ensures
            same == (self@ == other@),
    {
        if self.components.len() != other.components.len() {
            return false;
        }
        let mut i: usize = 0;
        while i < self.components.len()
            invariant
                i <= self.components.len(),
                self.components.len() == other.components.len(),
                forall|k: int| 0 <= k < i ==> self.components[k] == other.components[k],
            decreases self.components.len() - i,
        {
            if self.components[i] != other.components[i] {
                return false;
            }
            i = i + 1;
        }
        assert(self@ =~= other@);
        true
    }
}

} // verus!
