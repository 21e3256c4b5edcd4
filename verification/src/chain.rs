//! Plain-value models of the chain data the wallet works with: networks,
//! addresses, outpoints and transaction outputs.

use vstd::prelude::*;
use vstd::std_specs::cmp::PartialEqSpecImpl;

verus! {

/// A 32-byte transaction id.
pub type Txid = [u8; 32];

/// The 32-byte hash of a wallet seed; it identifies the wallet.
pub type WalletSeedHash = [u8; 32];

/// A 32-byte platform identifier.
pub type Identifier = [u8; 32];

/// Compares two byte arrays of the same length.
pub fn bytes_eq<const N: usize>(a: &[u8; N], b: &[u8; N]) -> (same: bool)
    ensures
        same == (*a == *b),
{
    let mut i: usize = 0;
    while i < N
        invariant
            i <= N,
            forall|k: int| 0 <= k < i ==> a[k] == b[k],
        decreases N - i,
    {
        if a[i] != b[i] {
            return false;
        }
        i = i + 1;
    }
    assert(*a =~= *b);
    true
}

/// `a` comes before `b` in the order of byte strings: at the first place
/// where they differ, `a` holds the smaller byte.
pub open spec fn bytes_before(a: Seq<u8>, b: Seq<u8>) -> bool {
    exists|k: int|
        0 <= k < a.len() && k < b.len() && a[k] < b[k] && forall|j: int|
            0 <= j < k ==> a[j] == b[j]
}

/// Tells whether `a` comes before `b` in the order of byte strings.
pub fn hash_before(a: &[u8; 32], b: &[u8; 32]) -> (before: bool)
    ensures
        before == bytes_before(a@, b@),
{
    let mut i: usize = 0;
    while i < 32
        invariant
            i <= 32,
            forall|j: int| 0 <= j < i ==> a@[j] == b@[j],
        decreases 32 - i,
    {
        if a[i] < b[i] {
            return true;
        }
        if a[i] > b[i] {
            assert(!bytes_before(a@, b@)) by {
                if bytes_before(a@, b@) {
                    let k = choose|k: int|
                        0 <= k < a@.len() && k < b@.len() && a@[k] < b@[k] && forall|j: int|
                            0 <= j < k ==> a@[j] == b@[j];
                    if k > i {
                        assert(a@[i as int] == b@[i as int]);
                    }
                }
            }
            return false;
        }
        i = i + 1;
    }
    false
}

/// The order of byte strings is transitive.
pub proof fn lemma_bytes_before_transitive(a: Seq<u8>, b: Seq<u8>, c: Seq<u8>)
    requires
        bytes_before(a, b),
        bytes_before(b, c),
    ensures
        bytes_before(a, c),
{
    let k1 = choose|k: int|
        0 <= k < a.len() && k < b.len() && a[k] < b[k] && forall|j: int|
            0 <= j < k ==> a[j] == b[j];
    let k2 = choose|k: int|
        0 <= k < b.len() && k < c.len() && b[k] < c[k] && forall|j: int|
            0 <= j < k ==> b[j] == c[j];
    let k = if k1 <= k2 {
        k1
    } else {
        k2
    };
    assert(a[k] < c[k]);
    assert forall|j: int| 0 <= j < k implies a[j] == c[j] by {
        assert(a[j] == b[j]);
        assert(b[j] == c[j]);
    }
}

/// Of two different hashes one comes before the other.
pub proof fn lemma_bytes_before_total(a: [u8; 32], b: [u8; 32])
    requires
        a != b,
        !bytes_before(a@, b@),
    ensures
        bytes_before(b@, a@),
{
    assert(a@ != b@) by {
        if a@ == b@ {
            assert(a =~= b);
        }
    }
    assert(a@.take(32) =~= a@);
    assert(b@.take(32) =~= b@);
    lemma_first_difference(a@, b@, 32);
    let k = choose|k: int|
        0 <= k < 32 && a@[k] != b@[k] && forall|j: int| 0 <= j < k ==> a@[j] == b@[j];
    assert(b@[k] < a@[k]);
}

proof fn lemma_first_difference(a: Seq<u8>, b: Seq<u8>, n: int)
    requires
        a.len() == b.len(),
        0 <= n <= a.len(),
        a.take(n) != b.take(n),
    ensures
        exists|k: int| 0 <= k < n && a[k] != b[k] && forall|j: int| 0 <= j < k ==> a[j] == b[j],
    decreases n,
{
    if n == 0 {
        assert(a.take(0) =~= b.take(0));
    } else if a.take(n - 1) != b.take(n - 1) {
        lemma_first_difference(a, b, n - 1);
    } else {
        assert(a[n - 1] != b[n - 1]) by {
            if a[n - 1] == b[n - 1] {
                assert(a.take(n) =~= a.take(n - 1).push(a[n - 1]));
                assert(b.take(n) =~= b.take(n - 1).push(b[n - 1]));
            }
        }
        assert forall|j: int| 0 <= j < n - 1 implies a[j] == b[j] by {
            assert(a.take(n - 1)[j] == b.take(n - 1)[j]);
        }
    }
}

/// Compares two byte strings.
pub fn byte_vec_eq(a: &Vec<u8>, b: &Vec<u8>) -> (same: bool)
    ensures
        same == (a@ == b@),
{
    if a.len() != b.len() {
        return false;
    }
    let mut i: usize = 0;
    while i < a.len()
        invariant
            i <= a.len(),
            a.len() == b.len(),
            forall|k: int| 0 <= k < i ==> a[k] == b[k],
        decreases a.len() - i,
    {
        if a[i] != b[i] {
            return false;
        }
        i = i + 1;
    }
    assert(a@ =~= b@);
    true
}

/// The chain a wallet, an address or a stored row belongs to.
#[derive(Clone, Copy, Debug, PartialEq, Eq, Structural)]
pub enum Network {
    Dash,
    Testnet,
    Devnet,
    Regtest,
}

impl Network {
    /// The name under which rows of this network are stored.
    pub open spec fn spec_name(self) -> Seq<char> {
        match self {
            Network::Dash => "dash"@,
            Network::Testnet => "testnet"@,
            Network::Devnet => "devnet"@,
            Network::Regtest => "regtest"@,
        }
    }

    /// The name under which rows of this network are stored.
    pub fn name(&self) -> (name: &'static str)
        ensures
            name@ == self.spec_name(),
    {
        match self {
            Network::Dash => "dash",
            Network::Testnet => "testnet",
            Network::Devnet => "devnet",
            Network::Regtest => "regtest",
        }
    }
}

impl Network {
    /// The number under which the network is stored.
    pub open spec fn spec_code(self) -> u8 {
        match self {
            Network::Dash => 0,
            Network::Testnet => 1,
            Network::Devnet => 2,
            Network::Regtest => 3,
        }
    }

    /// The number under which the network is stored.
    pub fn code(&self) -> (code: u8)
        ensures
            code == self.spec_code(),
    {
        match self {
            Network::Dash => 0,
            Network::Testnet => 1,
            Network::Devnet => 2,
            Network::Regtest => 3,
        }
    }

    /// The network that is stored under `code`, if there is one.
    pub fn from_code(code: u8) -> (network: Option<Network>)
        ensures
            match network {
                Some(n) => n.spec_code() == code,
                None => code > 3,
            },
    {
        match code {
            0 => Some(Network::Dash),
            1 => Some(Network::Testnet),
            2 => Some(Network::Devnet),
            3 => Some(Network::Regtest),
            _ => None,
        }
    }
}

/// What the 20-byte payload of an address is the hash of.
#[derive(Clone, Copy, Debug, PartialEq, Eq, Structural)]
pub enum AddressKind {
    PubkeyHash,
    ScriptHash,
}

/// A pay-to-hash address: the network it was encoded for and its payload.
#[derive(Clone, Copy, Debug, Eq)]
pub struct Address {
    pub network: Network,
    pub kind: AddressKind,
    pub hash: [u8; 20],
}

impl PartialEq for Address {
    fn eq(&self, other: &Self) -> (same: bool) {
        self.network == other.network && self.kind == other.kind && bytes_eq(
            &self.hash,
            &other.hash,
        )
    }
}

impl PartialEqSpecImpl for Address {
    open spec fn obeys_eq_spec() -> bool {
        true
    }

    open spec fn eq_spec(&self, other: &Self) -> bool {
        self.network == other.network && self.kind == other.kind && self.hash == other.hash
    }
}

/// Tells whether an address encoded for `found` may be used on `required`:
/// on its own network, and on any test network where it was encoded for a
/// test network.
pub open spec fn network_accepts(found: Network, required: Network) -> bool {
    found == required || (found != Network::Dash && required != Network::Dash)
}

/// The length of an address as it is stored.
pub const STORED_ADDRESS_LENGTH: usize = 22;

/// An address as it is stored: the number of its network, a byte that is
/// zero for the hash of a public key and one for the hash of a script, and
/// the hash.
pub open spec fn spec_address_bytes(address: Address) -> Seq<u8> {
    seq![
        address.network.spec_code(),
        match address.kind {
            AddressKind::PubkeyHash => 0u8,
            AddressKind::ScriptHash => 1u8,
        },
    ] + address.hash@
}

impl Address {
    /// The address as it is stored.
    pub fn to_bytes(&self) -> (bytes: Vec<u8>)
        ensures
            bytes@ == spec_address_bytes(*self),
            bytes@.len() == STORED_ADDRESS_LENGTH,
    {
        let mut bytes: Vec<u8> = Vec::new();
        bytes.push(self.network.code());
        bytes.push(
            match self.kind {
                AddressKind::PubkeyHash => 0,
                AddressKind::ScriptHash => 1,
            },
        );
        let ghost head = bytes@;
        let mut i: usize = 0;
        while i < 20
            invariant
                i <= 20,
                bytes@ == head + self.hash@.take(i as int),
            decreases 20 - i,
        {
            bytes.push(self.hash[i]);
            assert(bytes@ =~= head + self.hash@.take(i + 1));
            i = i + 1;
        }
        assert(self.hash@.take(20) =~= self.hash@);
        assert(head =~= seq![
            self.network.spec_code(),
            match self.kind {
                AddressKind::PubkeyHash => 0u8,
                AddressKind::ScriptHash => 1u8,
            },
        ]);
        bytes
    }

    /// The address that was stored as `bytes`, if `bytes` is a stored
    /// address.
    pub fn from_bytes(bytes: &Vec<u8>) -> (address: Option<Address>)
        ensures
            match address {
                Some(a) => spec_address_bytes(a) == bytes@,
                None => forall|a: Address| spec_address_bytes(a) != bytes@,
            },
    {
        if bytes.len() != STORED_ADDRESS_LENGTH {
            return None;
        }
        let network = match Network::from_code(bytes[0]) {
            Some(network) => network,
            None => {
                assert forall|a: Address| spec_address_bytes(a) != bytes@ by {
                    assert(spec_address_bytes(a)[0] == a.network.spec_code());
                }
                return None;
            },
        };
        let kind = match bytes[1] {
            0 => AddressKind::PubkeyHash,
            1 => AddressKind::ScriptHash,
            _ => {
                assert forall|a: Address| spec_address_bytes(a) != bytes@ by {
                    assert(spec_address_bytes(a)[1] <= 1);
                }
                return None;
            },
        };
        let mut hash = [0u8; 20];
        let mut i: usize = 0;
        while i < 20
            invariant
                i <= 20,
                bytes@.len() == STORED_ADDRESS_LENGTH,
                forall|k: int| 0 <= k < i ==> hash@[k] == bytes@[k + 2],
            decreases 20 - i,
        {
            hash[i] = bytes[i + 2];
            i = i + 1;
        }
        let address = Address { network, kind, hash };
        assert(spec_address_bytes(address) =~= bytes@);
        Some(address)
    }

    /// Tells whether the address may be used on `network`.
    pub fn is_valid_for_network(&self, network: Network) -> (valid: bool)
        ensures
            valid == network_accepts(self.network, network),
    {
        if self.network == network {
            true
        } else {
            match (self.network, network) {
                (Network::Dash, _) => false,
                (_, Network::Dash) => false,
                _ => true,
            }
        }
    }

    /// The same payload, encoded for another network.
    pub fn with_network(&self, network: Network) -> (moved: Address)
        ensures
            moved == (Address { network, kind: self.kind, hash: self.hash }),
    {
        Address { network, kind: self.kind, hash: self.hash }
    }
}

/// A reference to one output of one transaction.
#[derive(Clone, Copy, Debug, Eq)]
pub struct OutPoint {
    pub txid: Txid,
    pub vout: u32,
}

impl PartialEq for OutPoint {
    fn eq(&self, other: &Self) -> (same: bool) {
        self.vout == other.vout && bytes_eq(&self.txid, &other.txid)
    }
}

impl PartialEqSpecImpl for OutPoint {
    open spec fn obeys_eq_spec() -> bool {
        true
    }

    open spec fn eq_spec(&self, other: &Self) -> bool {
        self.vout == other.vout && self.txid == other.txid
    }
}

impl OutPoint {
    pub fn new(txid: Txid, vout: u32) -> (outpoint: OutPoint)
        ensures
            outpoint == (OutPoint { txid, vout }),
    {
        OutPoint { txid, vout }
    }
}

/// Tells whether `outpoint` occurs in `outpoints`.
pub fn contains_outpoint(outpoints: &Vec<OutPoint>, outpoint: &OutPoint) -> (found: bool)
    ensures
        found == outpoints@.contains(*outpoint),
{
    let mut i: usize = 0;
    while i < outpoints.len()
        invariant
            i <= outpoints.len(),
            forall|k: int| 0 <= k < i ==> outpoints@[k] != *outpoint,
        decreases outpoints.len() - i,
    {
        if outpoints[i] == *outpoint {
            return true;
        }
        i = i + 1;
    }
    false
}

/// A transaction output: its value in duffs and its locking script.
#[derive(Debug, PartialEq, Eq)]
pub struct TxOut {
    pub value: u64,
    pub script_pubkey: Vec<u8>,
}

/// The mathematical content of a [`TxOut`].
pub struct TxOutView {
    pub value: u64,
    pub script_pubkey: Seq<u8>,
}

impl View for TxOut {
    type V = TxOutView;

    open spec fn view(&self) -> TxOutView {
        TxOutView { value: self.value, script_pubkey: self.script_pubkey@ }
    }
}

impl Clone for TxOut {
    fn clone(&self) -> (copy: TxOut)
        ensures
            copy@ == self@,
    {
        TxOut { value: self.value, script_pubkey: self.script_pubkey.clone() }
    }
}

} // verus!
