//! Which keys of an identity may sign which kind of transaction, and what
//! a member of a group is told before he signs an action of the group.

use crate::outside::{spec_lowercase, to_lowercase};
use crate::text::{bytes_contain, text_contains};
use vstd::prelude::*;
use vstd::string::StringSliceAdditionalSpecFns;

verus! {

/// What a key of an identity is for.
#[derive(Clone, Copy, Debug, PartialEq, Eq, Structural)]
pub enum Purpose {
    AUTHENTICATION,
    ENCRYPTION,
    DECRYPTION,
    TRANSFER,
    SYSTEM,
    VOTING,
    OWNER,
}

/// How much a key of an identity is trusted with. A smaller number is a
/// higher level.
#[derive(Clone, Copy, Debug, PartialEq, Eq, Structural)]
pub enum SecurityLevel {
    MASTER,
    CRITICAL,
    HIGH,
    MEDIUM,
}

impl SecurityLevel {
    /// The number of the level: zero for the highest.
    pub open spec fn spec_rank(self) -> u8 {
        match self {
            SecurityLevel::MASTER => 0,
            SecurityLevel::CRITICAL => 1,
            SecurityLevel::HIGH => 2,
            SecurityLevel::MEDIUM => 3,
        }
    }

    /// The number of the level: zero for the highest.
    pub fn rank(&self) -> (rank: u8)
        ensures
            rank == self.spec_rank(),
    {
        match self {
            SecurityLevel::MASTER => 0,
            SecurityLevel::CRITICAL => 1,
            SecurityLevel::HIGH => 2,
            SecurityLevel::MEDIUM => 3,
        }
    }
}

/// Transaction types that require specific key filtering.
#[derive(Clone, Copy, Debug, PartialEq, Eq, Structural)]
pub enum TransactionType {
    /// Register a new data contract - requires Authentication keys with
    /// High or Critical security level.
    RegisterContract,
    /// Update an existing data contract - requires Authentication keys
    /// with Critical security level only.
    UpdateContract,
    /// Transfer credits - requires Transfer purpose keys.
    Transfer,
    /// Withdraw from identity - requires Transfer or Owner purpose keys.
    Withdraw,
    /// Generic document creation/update - security level depends on
    /// document type.
    DocumentAction,
    /// Token actions such as minting - requires Critical Authentication
    /// keys.
    TokenAction,
    /// Token action of transferring tokens.
    TokenTransfer,
    /// Token action of claiming.
    TokenClaim,
}

impl TransactionType {
    /// The allowed purposes for this transaction type, in the order in
    /// which they are offered.
    pub open spec fn spec_allowed_purposes(&self) -> Seq<Purpose> {
        match self {
            TransactionType::RegisterContract => seq![Purpose::AUTHENTICATION],
            TransactionType::UpdateContract => seq![Purpose::AUTHENTICATION],
            TransactionType::Transfer => seq![Purpose::TRANSFER],
            TransactionType::Withdraw => seq![Purpose::TRANSFER, Purpose::OWNER],
            TransactionType::DocumentAction => seq![Purpose::AUTHENTICATION],
            TransactionType::TokenAction => seq![Purpose::AUTHENTICATION],
            TransactionType::TokenTransfer => seq![Purpose::TRANSFER, Purpose::AUTHENTICATION],
            TransactionType::TokenClaim => seq![Purpose::TRANSFER, Purpose::AUTHENTICATION],
        }
    }

    /// Returns the allowed purposes for this transaction type.
    pub fn allowed_purposes(&self) -> (purposes: Vec<Purpose>)
        ensures
            purposes@ == self.spec_allowed_purposes(),
    {
        let mut purposes: Vec<Purpose> = Vec::new();
        match self {
            TransactionType::RegisterContract | TransactionType::UpdateContract => {
                purposes.push(Purpose::AUTHENTICATION);
            },
            TransactionType::Transfer => {
                purposes.push(Purpose::TRANSFER);
            },
            TransactionType::Withdraw => {
                purposes.push(Purpose::TRANSFER);
                purposes.push(Purpose::OWNER);
            },
            TransactionType::DocumentAction | TransactionType::TokenAction => {
                purposes.push(Purpose::AUTHENTICATION);
            },
            TransactionType::TokenTransfer | TransactionType::TokenClaim => {
                purposes.push(Purpose::TRANSFER);
                purposes.push(Purpose::AUTHENTICATION);
            },
        }
        assert(purposes@ =~= self.spec_allowed_purposes());
        purposes
    }

    /// The allowed security levels for this transaction type, in the order
    /// in which they are offered.
    pub open spec fn spec_allowed_security_levels(&self) -> Seq<SecurityLevel> {
        match self {
            TransactionType::RegisterContract => seq![SecurityLevel::CRITICAL, SecurityLevel::HIGH],
            TransactionType::DocumentAction => seq![
                SecurityLevel::CRITICAL,
                SecurityLevel::HIGH,
                SecurityLevel::MEDIUM,
            ],
            _ => seq![SecurityLevel::CRITICAL],
        }
    }

    /// Returns the allowed security levels for this transaction type.
    pub fn allowed_security_levels(&self) -> (levels: Vec<SecurityLevel>)
        ensures
            levels@ == self.spec_allowed_security_levels(),
    {
        let mut levels: Vec<SecurityLevel> = Vec::new();
        levels.push(SecurityLevel::CRITICAL);
        match self {
            TransactionType::RegisterContract => {
                levels.push(SecurityLevel::HIGH);
            },
            TransactionType::DocumentAction => {
                levels.push(SecurityLevel::HIGH);
                levels.push(SecurityLevel::MEDIUM);
            },
            _ => {},
        }
        assert(levels@ =~= self.spec_allowed_security_levels());
        levels
    }

    /// A descriptive label for the transaction type.
    pub open spec fn spec_label(&self) -> Seq<char> {
        match self {
            TransactionType::RegisterContract => "Register Contract"@,
            TransactionType::UpdateContract => "Update Contract"@,
            TransactionType::Transfer => "Transfer"@,
            TransactionType::Withdraw => "Withdraw"@,
            TransactionType::DocumentAction => "Document Action"@,
            TransactionType::TokenAction => "Token Action"@,
            TransactionType::TokenTransfer => "Token Transfer"@,
            TransactionType::TokenClaim => "Token Claim"@,
        }
    }

    /// Returns a descriptive label for the transaction type.
    pub fn label(&self) -> (label: &'static str)
        ensures
            label@ == self.spec_label(),
    {
        match self {
            TransactionType::RegisterContract => "Register Contract",
            TransactionType::UpdateContract => "Update Contract",
            TransactionType::Transfer => "Transfer",
            TransactionType::Withdraw => "Withdraw",
            TransactionType::DocumentAction => "Document Action",
            TransactionType::TokenAction => "Token Action",
            TransactionType::TokenTransfer => "Token Transfer",
            TransactionType::TokenClaim => "Token Claim",
        }
    }
}

/// The security levels that may sign a document of a type that requires
/// `required`: of the levels critical, high and medium, in that order,
/// those that are no lower than `required`.
pub open spec fn spec_document_security_levels(required: SecurityLevel) -> Seq<SecurityLevel> {
    match required {
        SecurityLevel::MASTER => Seq::empty(),
        SecurityLevel::CRITICAL => seq![SecurityLevel::CRITICAL],
        SecurityLevel::HIGH => seq![SecurityLevel::CRITICAL, SecurityLevel::HIGH],
        SecurityLevel::MEDIUM => seq![
            SecurityLevel::CRITICAL,
            SecurityLevel::HIGH,
            SecurityLevel::MEDIUM,
        ],
    }
}

/// The security levels that may sign a document of a type that requires
/// `required`.
pub fn document_security_levels(required: SecurityLevel) -> (levels: Vec<SecurityLevel>)
    ensures
        levels@ == spec_document_security_levels(required),
        forall|level: SecurityLevel|
            levels@.contains(level) <==> SecurityLevel::CRITICAL.spec_rank() <= level.spec_rank()
                <= required.spec_rank(),
{
    let mut levels: Vec<SecurityLevel> = Vec::new();
    let bound = required.rank();
    if SecurityLevel::CRITICAL.rank() <= bound {
        levels.push(SecurityLevel::CRITICAL);
    }
    if SecurityLevel::HIGH.rank() <= bound {
        levels.push(SecurityLevel::HIGH);
    }
    if SecurityLevel::MEDIUM.rank() <= bound {
        levels.push(SecurityLevel::MEDIUM);
    }
    assert(levels@ =~= spec_document_security_levels(required));
    assert forall|level: SecurityLevel|
        levels@.contains(level) <==> SecurityLevel::CRITICAL.spec_rank() <= level.spec_rank()
            <= required.spec_rank() by {
        if SecurityLevel::CRITICAL.spec_rank() <= level.spec_rank() <= required.spec_rank() {
            let place = level.spec_rank() - 1;
            assert(levels@[place] == level);
        }
    }
    levels
}

/// The security levels that may sign a transaction of the given type; for
/// an action on a document of a known type, those that the type of the
/// document admits.
pub fn security_levels_for(transaction_type: TransactionType, document_requirement: Option<
    SecurityLevel,
>) -> (levels: Vec<SecurityLevel>)
    ensures
        levels@ == if transaction_type == TransactionType::DocumentAction && document_requirement
            is Some {
            spec_document_security_levels(document_requirement->0)
        } else {
            transaction_type.spec_allowed_security_levels()
        },
{
    match (transaction_type, document_requirement) {
        (TransactionType::DocumentAction, Some(required)) => document_security_levels(required),
        _ => transaction_type.allowed_security_levels(),
    }
}

/// Tells whether `purpose` occurs in `purposes`.
pub fn contains_purpose(purposes: &Vec<Purpose>, purpose: Purpose) -> (found: bool)
    ensures
        found == purposes@.contains(purpose),
{
    let mut i: usize = 0;
    while i < purposes.len()
        invariant
            i <= purposes.len(),
            forall|k: int| 0 <= k < i ==> purposes@[k] != purpose,
        decreases purposes.len() - i,
    {
        if purposes[i] == purpose {
            return true;
        }
        i = i + 1;
    }
    false
}

/// Tells whether `level` occurs in `levels`.
pub fn contains_security_level(levels: &Vec<SecurityLevel>, level: SecurityLevel) -> (found: bool)
    ensures
        found == levels@.contains(level),
{
    let mut i: usize = 0;
    while i < levels.len()
        invariant
            i <= levels.len(),
            forall|k: int| 0 <= k < i ==> levels@[k] != level,
        decreases levels.len() - i,
    {
        if levels[i] == level {
            return true;
        }
        i = i + 1;
    }
    false
}

/// How a key is offered to sign a transaction.
#[derive(Clone, Copy, Debug, PartialEq, Eq, Structural)]
pub enum KeyChoice {
    /// The key is not offered.
    Hidden,
    /// The key is offered.
    Offered,
    /// The key is offered to a developer only, and marked so: the
    /// transaction does not admit it.
    OfferedToDeveloper,
}

/// How a key with the given purpose and security level is offered, where
/// the transaction admits the purposes and levels given. A developer is
/// offered every key.
pub open spec fn spec_key_choice(
    developer_mode: bool,
    allowed_purposes: Seq<Purpose>,
    allowed_security_levels: Seq<SecurityLevel>,
    purpose: Purpose,
    security_level: SecurityLevel,
) -> KeyChoice {
    let suitable = allowed_purposes.contains(purpose) && allowed_security_levels.contains(
        security_level,
    );
    if suitable {
        KeyChoice::Offered
    } else if developer_mode {
        KeyChoice::OfferedToDeveloper
    } else {
        KeyChoice::Hidden
    }
}

/// How a key with the given purpose and security level is offered.
pub fn key_choice(
    developer_mode: bool,
    allowed_purposes: &Vec<Purpose>,
    allowed_security_levels: &Vec<SecurityLevel>,
    purpose: Purpose,
    security_level: SecurityLevel,
) -> (choice: KeyChoice)
    ensures
        choice == spec_key_choice(
            developer_mode,
            allowed_purposes@,
            allowed_security_levels@,
            purpose,
            security_level,
        ),
{
    let suitable = contains_purpose(allowed_purposes, purpose) && contains_security_level(
        allowed_security_levels,
        security_level,
    );
    if suitable {
        KeyChoice::Offered
    } else if developer_mode {
        KeyChoice::OfferedToDeveloper
    } else {
        KeyChoice::Hidden
    }
}

/// Where a signer of an action on a token stands towards the group that
/// controls the action.
#[derive(Clone, Copy, Debug, PartialEq, Eq, Structural)]
pub enum GroupActionStanding {
    /// No group controls the action.
    NoGroup,
    /// The signer signs an action of the group that is under way.
    SigningActiveAction,
    /// The signer is no member of the group.
    NotMember,
    /// The power of the signer suffices without the other members.
    Unilateral,
    /// The signer begins an action that other members must sign too.
    Initiating,
}

/// Where a signer stands: whether an action of the group is under way,
/// whether a group controls the action at all, the power of the signer in
/// the group if he is a member, and the power that the group requires.
pub open spec fn spec_group_action_standing(
    action_under_way: bool,
    has_group: bool,
    your_power: Option<u32>,
    required_power: u32,
) -> GroupActionStanding {
    if action_under_way {
        GroupActionStanding::SigningActiveAction
    } else if !has_group {
        GroupActionStanding::NoGroup
    } else if your_power is None {
        GroupActionStanding::NotMember
    } else if your_power->0 >= required_power {
        GroupActionStanding::Unilateral
    } else {
        GroupActionStanding::Initiating
    }
}

/// Where a signer stands towards the group that controls an action.
pub fn group_action_standing(
    action_under_way: bool,
    has_group: bool,
    your_power: Option<u32>,
    required_power: u32,
) -> (standing: GroupActionStanding)
    ensures
        standing == spec_group_action_standing(
            action_under_way,
            has_group,
            your_power,
            required_power,
        ),
{
    if action_under_way {
        GroupActionStanding::SigningActiveAction
    } else if !has_group {
        GroupActionStanding::NoGroup
    } else {
        match your_power {
            None => GroupActionStanding::NotMember,
            Some(power) => if power >= required_power {
                GroupActionStanding::Unilateral
            } else {
                GroupActionStanding::Initiating
            },
        }
    }
}

/// The words on the button that sends an action, for a signer of the
/// given standing.
pub open spec fn spec_group_action_text(standing: GroupActionStanding, action: Seq<char>) -> Seq<
    char,
> {
    match standing {
        GroupActionStanding::SigningActiveAction => "Sign "@ + action,
        GroupActionStanding::NotMember => "Test "@ + action + " (Should fail)"@,
        GroupActionStanding::Initiating => "Initiate Group "@ + action,
        GroupActionStanding::Unilateral => action,
        GroupActionStanding::NoGroup => action,
    }
}

/// The words on the button that sends an action.
pub fn group_action_text(standing: GroupActionStanding, group_action_type_str: &str) -> (text:
    String)
    ensures
        text@ == spec_group_action_text(standing, group_action_type_str@),
{
    match standing {
        GroupActionStanding::SigningActiveAction => String::from_str("Sign ").concat(
            group_action_type_str,
        ),
        GroupActionStanding::NotMember => String::from_str("Test ").concat(
            group_action_type_str,
        ).concat(" (Should fail)"),
        GroupActionStanding::Initiating => String::from_str("Initiate Group ").concat(
            group_action_type_str,
        ),
        GroupActionStanding::Unilateral => String::from_str(group_action_type_str),
        GroupActionStanding::NoGroup => String::from_str(group_action_type_str),
    }
}


/// A contract passes a search: its alias, or its id where it has no alias,
/// holds the words searched for, both in lower case.
pub open spec fn spec_contract_matches_search(key: Seq<char>, search_term: Seq<char>) -> bool {
    bytes_contain(
        vstd::utf8::encode_utf8(spec_lowercase(key)),
        vstd::utf8::encode_utf8(spec_lowercase(search_term)),
    )
}

/// Tells whether a contract that is shown as `key` passes the search.
pub fn contract_matches_search(key: &str, search_term: &str) -> (matches: bool)
    ensures
        matches == spec_contract_matches_search(key@, search_term@),
{
    let search_term_lowercase = to_lowercase(search_term);
    let key_lowercase = to_lowercase(key);
    text_contains(key_lowercase.as_str(), search_term_lowercase.as_str())
}

/// Tells whether none of the keys of an identity is offered for a
/// transaction, so that the user is told that no key is suitable.
pub fn no_suitable_keys(choices: &Vec<KeyChoice>) -> (none: bool)
    ensures
        none == forall|k: int| 0 <= k < choices@.len() ==> choices@[k] == KeyChoice::Hidden,
{
    let mut k: usize = 0;
    while k < choices.len()
        invariant
            k <= choices.len(),
            forall|j: int| 0 <= j < k ==> choices@[j] == KeyChoice::Hidden,
        decreases choices.len() - k,
    {
        if choices[k] != KeyChoice::Hidden {
            return false;
        }
        k = k + 1;
    }
    true
}

} // verus!
