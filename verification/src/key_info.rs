//! What the screen of a key decides: which private key the user has
//! entered, whether a message can be signed with the key, and how a
//! signature is written.

use crate::outside::{
    base64_encode, hex_decode, is_hex_text, spec_base64_encode, spec_hex_decode,
};
use crate::views::text_option_view;
use vstd::prelude::*;
use vstd::string::StringSliceAdditionalSpecFns;

verus! {

/// The length of a private key in bytes.
pub const PRIVATE_KEY_LENGTH: usize = 32;

/// The byte that stands before a compact signature of a message.
pub const SIGNATURE_HEADER: u8 = 32;

/// Why the text that the user entered is no private key.
#[derive(Clone, Copy, Debug, PartialEq, Eq, Structural)]
pub enum PrivateKeyInputError {
    /// The text is hexadecimal and does not stand for 32 bytes.
    NotThirtyTwoBytes,
    /// The text is neither hexadecimal nor a key in wallet import format.
    InvalidHexOrWif,
}

impl PrivateKeyInputError {
    /// What the user is told.
    pub open spec fn spec_message(self) -> Seq<char> {
        match self {
            PrivateKeyInputError::NotThirtyTwoBytes => "Private key not 32 bytes"@,
            PrivateKeyInputError::InvalidHexOrWif => "Invalid hex string or WIF for private key."@,
        }
    }

    /// What the user is told.
    pub fn message(&self) -> (message: &'static str)
        ensures
            message@ == self.spec_message(),
    {
        match self {
            PrivateKeyInputError::NotThirtyTwoBytes => "Private key not 32 bytes",
            PrivateKeyInputError::InvalidHexOrWif => "Invalid hex string or WIF for private key.",
        }
    }
}

/// The private key that a text stands for, given the key that the text
/// holds in wallet import format, if it holds one: a hexadecimal text
/// stands for its bytes and must have 32 of them; any other text stands for
/// the key in wallet import format.
pub open spec fn spec_private_key_from_input(text: Seq<u8>, wif_secret: Option<[u8; 32]>) -> Result<
    Seq<u8>,
    PrivateKeyInputError,
> {
    if is_hex_text(text) {
        if spec_hex_decode(text).len() == PRIVATE_KEY_LENGTH {
            Ok(spec_hex_decode(text))
        } else {
            Err(PrivateKeyInputError::NotThirtyTwoBytes)
        }
    } else {
        match wif_secret {
            Some(secret) => Ok(secret@),
            None => Err(PrivateKeyInputError::InvalidHexOrWif),
        }
    }
}

/// The view of a key or the reason why there is none.
pub open spec fn key_result_view(result: Result<[u8; 32], PrivateKeyInputError>) -> Result<
    Seq<u8>,
    PrivateKeyInputError,
> {
    match result {
        Ok(key) => Ok(key@),
        Err(e) => Err(e),
    }
}

/// Reads the private key that the user entered. `wif_secret` is the key
/// that the text holds in wallet import format, if it holds one.
pub fn private_key_from_input(private_key_input: &str, wif_secret: Option<[u8; 32]>) -> (result:
    Result<[u8; 32], PrivateKeyInputError>)
    ensures
        key_result_view(result) == spec_private_key_from_input(
            private_key_input.spec_bytes(),
            wif_secret,
        ),
{
    match hex_decode(private_key_input) {
        Some(bytes) => {
            if bytes.len() != PRIVATE_KEY_LENGTH {
                return Err(PrivateKeyInputError::NotThirtyTwoBytes);
            }
            let mut key = [0u8; 32];
            let mut i: usize = 0;
            while i < PRIVATE_KEY_LENGTH
                invariant
                    i <= PRIVATE_KEY_LENGTH,
                    bytes@.len() == PRIVATE_KEY_LENGTH,
                    forall|k: int| 0 <= k < i ==> key@[k] == bytes@[k],
                decreases PRIVATE_KEY_LENGTH - i,
            {
                key[i] = bytes[i];
                i = i + 1;
            }
            assert(key@ =~= bytes@);
            Ok(key)
        },
        None => match wif_secret {
            Some(secret) => Ok(secret),
            None => Err(PrivateKeyInputError::InvalidHexOrWif),
        },
    }
}

/// What follows from holding a private key against the public key.
#[derive(Debug, PartialEq, Eq)]
pub enum KeyValidation {
    /// The private key belongs to the public key: it is stored.
    Store,
    /// The private key is refused, with these words.
    Refuse(String),
}

pub enum KeyValidationView {
    Store,
    Refuse(Seq<char>),
}

impl View for KeyValidation {
    type V = KeyValidationView;

    open spec fn view(&self) -> KeyValidationView {
        match self {
            KeyValidation::Store => KeyValidationView::Store,
            KeyValidation::Refuse(words) => KeyValidationView::Refuse(words@),
        }
    }
}

/// What follows from holding a private key against the public key: whether
/// the two belong together, or why that could not be found out.
pub fn after_key_validation(validation: Result<bool, String>) -> (outcome: KeyValidation)
    ensures
        outcome@ == match validation {
            Ok(true) => KeyValidationView::Store,
            Ok(false) => KeyValidationView::Refuse("Private key does not match the public key."@),
            Err(words) => KeyValidationView::Refuse("Issue verifying private key "@ + words@),
        },
{
    match validation {
        Ok(true) => KeyValidation::Store,
        Ok(false) => KeyValidation::Refuse(
            String::from_str("Private key does not match the public key."),
        ),
        Err(words) => KeyValidation::Refuse(
            String::from_str("Issue verifying private key ").concat(words.as_str()),
        ),
    }
}

/// The error that the screen shows after the identity with its new key was
/// saved, or could not be.
pub fn after_key_saved(saved: Result<(), String>) -> (error_message: Option<String>)
    ensures
        text_option_view(error_message) == match saved {
            Ok(()) => None,
            Err(words) => Some("Issue saving: "@ + words@),
        },
{
    match saved {
        Ok(()) => None,
        Err(words) => Some(String::from_str("Issue saving: ").concat(words.as_str())),
    }
}

/// The algorithm of a key of an identity.
#[allow(non_camel_case_types)]
#[derive(Clone, Copy, Debug, PartialEq, Eq, Structural)]
pub enum KeyType {
    ECDSA_SECP256K1,
    BLS12_381,
    ECDSA_HASH160,
    BIP13_SCRIPT_HASH,
    EDDSA_25519_HASH160,
}

/// How the private key of a key of an identity is held.
#[derive(Clone, Copy, Debug, PartialEq, Eq)]
pub enum PrivateKeyData {
    /// In the clear, kept so for good.
    AlwaysClear([u8; 32]),
    /// In the clear.
    Clear([u8; 32]),
    /// Encrypted.
    Encrypted,
    /// In a wallet, on a derivation path.
    AtWalletDerivationPath,
}

/// Why a message cannot be signed.
#[derive(Clone, Copy, Debug, PartialEq, Eq, Structural)]
pub enum SignError {
    PrivateKeyNotAvailable,
    UnsupportedKeyType,
}

impl SignError {
    /// What the user is told.
    pub open spec fn spec_message(self) -> Seq<char> {
        match self {
            SignError::PrivateKeyNotAvailable => "Private key is not available."@,
            SignError::UnsupportedKeyType => "Unsupported key type for signing."@,
        }
    }

    /// What the user is told.
    pub fn message(&self) -> (message: &'static str)
        ensures
            message@ == self.spec_message(),
    {
        match self {
            SignError::PrivateKeyNotAvailable => "Private key is not available.",
            SignError::UnsupportedKeyType => "Unsupported key type for signing.",
        }
    }
}

/// The private key to sign a message with: the key held in the clear, or
/// else the key as it was decrypted; and only for a key of an ECDSA kind.
pub open spec fn spec_signing_key(
    private_key_data: Option<PrivateKeyData>,
    decrypted_private_key: Option<[u8; 32]>,
    key_type: KeyType,
) -> Result<[u8; 32], SignError> {
    let available: Option<[u8; 32]> = match private_key_data {
        None => None,
        Some(PrivateKeyData::Clear(bytes)) => Some(bytes),
        Some(PrivateKeyData::AlwaysClear(bytes)) => Some(bytes),
        Some(_) => decrypted_private_key,
    };
    match available {
        None => Err(SignError::PrivateKeyNotAvailable),
        Some(bytes) => if key_type == KeyType::ECDSA_SECP256K1 || key_type
            == KeyType::ECDSA_HASH160 {
            Ok(bytes)
        } else {
            Err(SignError::UnsupportedKeyType)
        },
    }
}

/// The private key to sign a message with, or why the message cannot be
/// signed.
pub fn signing_key(
    private_key_data: &Option<PrivateKeyData>,
    decrypted_private_key: Option<[u8; 32]>,
    key_type: KeyType,
) -> (result: Result<[u8; 32], SignError>)
    ensures
        result == spec_signing_key(*private_key_data, decrypted_private_key, key_type),
{
    let available: Option<[u8; 32]> = match private_key_data {
        None => None,
        Some(PrivateKeyData::Clear(bytes)) => Some(*bytes),
        Some(PrivateKeyData::AlwaysClear(bytes)) => Some(*bytes),
        Some(_) => decrypted_private_key,
    };
    match available {
        None => Err(SignError::PrivateKeyNotAvailable),
        Some(bytes) => match key_type {
            KeyType::ECDSA_SECP256K1 => Ok(bytes),
            KeyType::ECDSA_HASH160 => Ok(bytes),
            _ => Err(SignError::UnsupportedKeyType),
        },
    }
}

/// The bytes of a signed message: the header byte, then the compact
/// signature.
pub open spec fn spec_serialized_signature(compact: Seq<u8>) -> Seq<u8> {
    seq![SIGNATURE_HEADER] + compact
}

/// Writes a compact signature of a message as it is shown: the header
/// byte and the signature, in base64.
pub fn signed_message_text(compact_signature: &[u8; 64]) -> (text: String)
    ensures
        text@ == spec_base64_encode(spec_serialized_signature(compact_signature@)),
{
    let mut serialized: Vec<u8> = Vec::new();
    serialized.push(SIGNATURE_HEADER);
    let mut i: usize = 0;
    while i < 64
        invariant
            i <= 64,
            serialized@ == seq![SIGNATURE_HEADER] + compact_signature@.take(i as int),
        decreases 64 - i,
    {
        serialized.push(compact_signature[i]);
        assert(serialized@ =~= seq![SIGNATURE_HEADER] + compact_signature@.take(i + 1));
        i = i + 1;
    }
    assert(compact_signature@.take(64) =~= compact_signature@);
    base64_encode(serialized.as_slice())
}

} // verus!
