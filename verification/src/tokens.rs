//! What the screens of tokens decide: whether an identity can buy a
//! token, the name of a change to the configuration of a token, who may
//! make such a change, and what goes to the backend with it.

use crate::chain::{bytes_eq, Identifier};
use crate::outside::{decimal_text, spec_decimal_text};
use crate::pricing::{get_min_token_price, spec_min_token_price, TokenPricingSchedule};
use crate::text::{bytes_contain, text_contains, MessageType};
use vstd::prelude::*;
use vstd::string::StringSliceAdditionalSpecFns;

verus! {

/// What the list of actions shows for the purchase of a token.
#[derive(Debug, PartialEq, Eq)]
pub enum PurchaseOffer {
    /// Nothing: no price is known yet, and none is being fetched.
    Hidden,
    /// The sign that the price is being fetched.
    Loading,
    /// The button, to be clicked.
    Open,
    /// The button, greyed out, with the words that say why.
    Closed(String),
}

pub enum PurchaseOfferView {
    Hidden,
    Loading,
    Open,
    Closed(Seq<char>),
}

impl View for PurchaseOffer {
    type V = PurchaseOfferView;

    open spec fn view(&self) -> PurchaseOfferView {
        match self {
            PurchaseOffer::Hidden => PurchaseOfferView::Hidden,
            PurchaseOffer::Loading => PurchaseOfferView::Loading,
            PurchaseOffer::Open => PurchaseOfferView::Open,
            PurchaseOffer::Closed(words) => PurchaseOfferView::Closed(words@),
        }
    }
}

/// What the list of actions shows for the purchase of a token, given
/// whether its price is being fetched, what is known of its price (nothing
/// yet; that it has none; its schedule), and the credits of the identity,
/// where the identity is at hand. While the price is fetched there is only
/// the sign of that. With nothing known nothing is shown. The purchase is
/// open to an identity whose credits reach the price of one token; else it
/// is closed, and the words name the price where there is one.
pub open spec fn spec_purchase_offer(
    is_loading: bool,
    pricing: Option<Option<TokenPricingSchedule>>,
    balance: Option<u64>,
) -> PurchaseOfferView {
    if is_loading {
        PurchaseOfferView::Loading
    } else {
        match pricing {
            None => PurchaseOfferView::Hidden,
            Some(None) => PurchaseOfferView::Closed("No credits available for purchase"@),
            Some(Some(schedule)) => {
                let price = spec_min_token_price(schedule);
                if balance is Some && balance->0 >= price {
                    PurchaseOfferView::Open
                } else {
                    PurchaseOfferView::Closed(
                        "Insufficient credits. Need at least "@ + spec_decimal_text(price as nat)
                            + " credits to purchase one token"@,
                    )
                }
            },
        }
    }
}

/// What the list of actions shows for the purchase of a token.
pub fn purchase_offer(
    is_loading: bool,
    pricing: &Option<Option<TokenPricingSchedule>>,
    balance: Option<u64>,
) -> (offer: PurchaseOffer)
    ensures
        offer@ == spec_purchase_offer(is_loading, *pricing, balance),
{
    if is_loading {
        return PurchaseOffer::Loading;
    }
    match pricing {
        None => PurchaseOffer::Hidden,
        Some(None) => PurchaseOffer::Closed(String::from_str("No credits available for purchase")),
        Some(Some(schedule)) => {
            let price = get_min_token_price(schedule);
            let has_credits = match balance {
                Some(credits) => credits >= price,
                None => false,
            };
            if has_credits {
                PurchaseOffer::Open
            } else {
                PurchaseOffer::Closed(
                    String::from_str("Insufficient credits. Need at least ").concat(
                        decimal_text(price).as_str(),
                    ).concat(" credits to purchase one token"),
                )
            }
        },
    }
}

/// A change to the configuration of a token, by what it changes.
#[derive(Clone, Copy, Debug, PartialEq, Eq, Structural)]
pub enum TokenConfigurationChangeItem {
    TokenConfigurationNoChange,
    Conventions,
    ConventionsControlGroup,
    ConventionsAdminGroup,
    MaxSupply,
    MaxSupplyControlGroup,
    MaxSupplyAdminGroup,
    PerpetualDistribution,
    PerpetualDistributionControlGroup,
    PerpetualDistributionAdminGroup,
    NewTokensDestinationIdentity,
    NewTokensDestinationIdentityControlGroup,
    NewTokensDestinationIdentityAdminGroup,
    MintingAllowChoosingDestination,
    MintingAllowChoosingDestinationControlGroup,
    MintingAllowChoosingDestinationAdminGroup,
    ManualMinting,
    ManualMintingAdminGroup,
    ManualBurning,
    ManualBurningAdminGroup,
    Freeze,
    FreezeAdminGroup,
    Unfreeze,
    UnfreezeAdminGroup,
    DestroyFrozenFunds,
    DestroyFrozenFundsAdminGroup,
    EmergencyAction,
    EmergencyActionAdminGroup,
    MarketplaceTradeMode,
    MarketplaceTradeModeControlGroup,
    MarketplaceTradeModeAdminGroup,
    MainControlGroup,
}

/// The name of a change as it is shown.
pub open spec fn spec_token_change_item_label(item: TokenConfigurationChangeItem) -> Seq<char> {
    match item {
        TokenConfigurationChangeItem::TokenConfigurationNoChange => "No Change"@,
        TokenConfigurationChangeItem::Conventions => "Conventions"@,
        TokenConfigurationChangeItem::ConventionsControlGroup => "Conventions Control Group"@,
        TokenConfigurationChangeItem::ConventionsAdminGroup => "Conventions Admin Group"@,
        TokenConfigurationChangeItem::MaxSupply => "Max Supply"@,
        TokenConfigurationChangeItem::MaxSupplyControlGroup => "Max Supply Control Group"@,
        TokenConfigurationChangeItem::MaxSupplyAdminGroup => "Max Supply Admin Group"@,
        TokenConfigurationChangeItem::PerpetualDistribution => "Perpetual Distribution"@,
        TokenConfigurationChangeItem::PerpetualDistributionControlGroup => "Perpetual Distribution Control Group"@,
        TokenConfigurationChangeItem::PerpetualDistributionAdminGroup => "Perpetual Distribution Admin Group"@,
        TokenConfigurationChangeItem::NewTokensDestinationIdentity => "New‑Tokens Destination"@,
        TokenConfigurationChangeItem::NewTokensDestinationIdentityControlGroup => "New‑Tokens Destination Control Group"@,
        TokenConfigurationChangeItem::NewTokensDestinationIdentityAdminGroup => "New‑Tokens Destination Admin Group"@,
        TokenConfigurationChangeItem::MintingAllowChoosingDestination => "Minting Allow Choosing Destination"@,
        TokenConfigurationChangeItem::MintingAllowChoosingDestinationControlGroup => "Minting Allow Choosing Destination Control Group"@,
        TokenConfigurationChangeItem::MintingAllowChoosingDestinationAdminGroup => "Minting Allow Choosing Destination Admin Group"@,
        TokenConfigurationChangeItem::ManualMinting => "Manual Minting"@,
        TokenConfigurationChangeItem::ManualMintingAdminGroup => "Manual Minting Admin Group"@,
        TokenConfigurationChangeItem::ManualBurning => "Manual Burning"@,
        TokenConfigurationChangeItem::ManualBurningAdminGroup => "Manual Burning Admin Group"@,
        TokenConfigurationChangeItem::Freeze => "Freeze"@,
        TokenConfigurationChangeItem::FreezeAdminGroup => "Freeze Admin Group"@,
        TokenConfigurationChangeItem::Unfreeze => "Unfreeze"@,
        TokenConfigurationChangeItem::UnfreezeAdminGroup => "Unfreeze Admin Group"@,
        TokenConfigurationChangeItem::DestroyFrozenFunds => "Destroy Frozen Funds"@,
        TokenConfigurationChangeItem::DestroyFrozenFundsAdminGroup => "Destroy Frozen Funds Admin Group"@,
        TokenConfigurationChangeItem::EmergencyAction => "Emergency Action"@,
        TokenConfigurationChangeItem::EmergencyActionAdminGroup => "Emergency Action Admin Group"@,
        TokenConfigurationChangeItem::MarketplaceTradeMode => "Marketplace Trade Mode"@,
        TokenConfigurationChangeItem::MarketplaceTradeModeControlGroup => "Marketplace Trade Mode Control Group"@,
        TokenConfigurationChangeItem::MarketplaceTradeModeAdminGroup => "Marketplace Trade Mode Admin Group"@,
        TokenConfigurationChangeItem::MainControlGroup => "Main Control Group"@,
    }
}

/// Returns a simple label for UI display.
pub fn token_change_item_label(item: &TokenConfigurationChangeItem) -> (label: &'static str)
    ensures
        label@ == spec_token_change_item_label(*item),
{
    match item {
        TokenConfigurationChangeItem::TokenConfigurationNoChange => "No Change",
        TokenConfigurationChangeItem::Conventions => "Conventions",
        TokenConfigurationChangeItem::ConventionsControlGroup => "Conventions Control Group",
        TokenConfigurationChangeItem::ConventionsAdminGroup => "Conventions Admin Group",
        TokenConfigurationChangeItem::MaxSupply => "Max Supply",
        TokenConfigurationChangeItem::MaxSupplyControlGroup => "Max Supply Control Group",
        TokenConfigurationChangeItem::MaxSupplyAdminGroup => "Max Supply Admin Group",
        TokenConfigurationChangeItem::PerpetualDistribution => "Perpetual Distribution",
        TokenConfigurationChangeItem::PerpetualDistributionControlGroup => "Perpetual Distribution Control Group",
        TokenConfigurationChangeItem::PerpetualDistributionAdminGroup => "Perpetual Distribution Admin Group",
        TokenConfigurationChangeItem::NewTokensDestinationIdentity => "New‑Tokens Destination",
        TokenConfigurationChangeItem::NewTokensDestinationIdentityControlGroup => "New‑Tokens Destination Control Group",
        TokenConfigurationChangeItem::NewTokensDestinationIdentityAdminGroup => "New‑Tokens Destination Admin Group",
        TokenConfigurationChangeItem::MintingAllowChoosingDestination => "Minting Allow Choosing Destination",
        TokenConfigurationChangeItem::MintingAllowChoosingDestinationControlGroup => "Minting Allow Choosing Destination Control Group",
        TokenConfigurationChangeItem::MintingAllowChoosingDestinationAdminGroup => "Minting Allow Choosing Destination Admin Group",
        TokenConfigurationChangeItem::ManualMinting => "Manual Minting",
        TokenConfigurationChangeItem::ManualMintingAdminGroup => "Manual Minting Admin Group",
        TokenConfigurationChangeItem::ManualBurning => "Manual Burning",
        TokenConfigurationChangeItem::ManualBurningAdminGroup => "Manual Burning Admin Group",
        TokenConfigurationChangeItem::Freeze => "Freeze",
        TokenConfigurationChangeItem::FreezeAdminGroup => "Freeze Admin Group",
        TokenConfigurationChangeItem::Unfreeze => "Unfreeze",
        TokenConfigurationChangeItem::UnfreezeAdminGroup => "Unfreeze Admin Group",
        TokenConfigurationChangeItem::DestroyFrozenFunds => "Destroy Frozen Funds",
        TokenConfigurationChangeItem::DestroyFrozenFundsAdminGroup => "Destroy Frozen Funds Admin Group",
        TokenConfigurationChangeItem::EmergencyAction => "Emergency Action",
        TokenConfigurationChangeItem::EmergencyActionAdminGroup => "Emergency Action Admin Group",
        TokenConfigurationChangeItem::MarketplaceTradeMode => "Marketplace Trade Mode",
        TokenConfigurationChangeItem::MarketplaceTradeModeControlGroup => "Marketplace Trade Mode Control Group",
        TokenConfigurationChangeItem::MarketplaceTradeModeAdminGroup => "Marketplace Trade Mode Admin Group",
        TokenConfigurationChangeItem::MainControlGroup => "Main Control Group",
    }
}

/// Who may make a change to the configuration of a token.
#[derive(Clone, Copy, Debug, PartialEq, Eq)]
pub enum AuthorizedActionTakers {
    NoOne,
    ContractOwner,
    Identity(Identifier),
    MainGroup,
    /// The group at this position of the contract.
    Group(u16),
}

/// A member of a group, with his power.
#[derive(Clone, Copy, Debug, PartialEq, Eq)]
pub struct GroupMember {
    pub identity: Identifier,
    pub power: u32,
}

/// A group of a contract: its members, and the power that an action of the
/// group requires.
#[derive(Debug, PartialEq, Eq)]
pub struct Group {
    pub members: Vec<GroupMember>,
    pub required_power: u32,
}

/// Why the identity cannot make the change that it chose.
#[derive(Clone, Copy, Debug, PartialEq, Eq, Structural)]
pub enum ChangeNotAllowed {
    /// No one may make the change.
    NoOne,
    /// The owner of the contract alone may make the change.
    NotContractOwner,
    /// Another identity alone may make the change.
    NotTheAuthorizedIdentity,
    /// The main group may make the change, and the token names none.
    NoMainControlGroup,
    /// The contract holds no group at the position.
    GroupNotFound(u16),
}

impl ChangeNotAllowed {
    /// What the identity is told.
    pub open spec fn spec_message(self) -> Seq<char> {
        match self {
            ChangeNotAllowed::NoOne => "This action is not allowed on this token"@,
            ChangeNotAllowed::NotContractOwner => {
                "You are not allowed to perform this action. Only the contract owner is."@
            },
            ChangeNotAllowed::NotTheAuthorizedIdentity => {
                "You are not allowed to perform this action"@
            },
            ChangeNotAllowed::NoMainControlGroup => {
                "Invalid contract: No main control group, though one should exist"@
            },
            ChangeNotAllowed::GroupNotFound(_) => "Invalid contract: group not found"@,
        }
    }

    /// What the identity is told.
    pub fn message(&self) -> (message: &'static str)
        ensures
            message@ == self.spec_message(),
    {
        match self {
            ChangeNotAllowed::NoOne => "This action is not allowed on this token",
            ChangeNotAllowed::NotContractOwner => {
                "You are not allowed to perform this action. Only the contract owner is."
            },
            ChangeNotAllowed::NotTheAuthorizedIdentity => {
                "You are not allowed to perform this action"
            },
            ChangeNotAllowed::NoMainControlGroup => {
                "Invalid contract: No main control group, though one should exist"
            },
            ChangeNotAllowed::GroupNotFound(_) => "Invalid contract: group not found",
        }
    }
}

/// The power of `identity` in a list of members: that of its first entry.
pub open spec fn spec_power_of(members: Seq<GroupMember>, identity: Identifier) -> Option<u32>
    decreases members.len(),
{
    if members.len() == 0 {
        None
    } else if members.first().identity == identity {
        Some(members.first().power)
    } else {
        spec_power_of(members.drop_first(), identity)
    }
}

/// The position in `groups` of the first group that stands at `position`
/// of the contract.
pub open spec fn spec_group_index(groups: Seq<(u16, Group)>, position: u16) -> Option<int>
    decreases groups.len(),
{
    if groups.len() == 0 {
        None
    } else if groups.first().0 == position {
        Some(0)
    } else {
        match spec_group_index(groups.drop_first(), position) {
            Some(i) => Some(i + 1),
            None => None,
        }
    }
}

impl Group {
    /// The power of `identity` in the group, if it is a member.
    pub fn power_of(&self, identity: &Identifier) -> (power: Option<u32>)
        ensures
            power == spec_power_of(self.members@, *identity),
    {
        let mut i: usize = 0;
        assert(self.members@.skip(0) =~= self.members@);
        while i < self.members.len()
            invariant
                i <= self.members.len(),
                spec_power_of(self.members@, *identity) == spec_power_of(
                    self.members@.skip(i as int),
                    *identity,
                ),
            decreases self.members.len() - i,
        {
            proof {
                assert(self.members@.skip(i as int).first() == self.members@[i as int]);
                assert(self.members@.skip(i as int).drop_first() =~= self.members@.skip(i + 1));
            }
            if bytes_eq(&self.members[i].identity, identity) {
                return Some(self.members[i].power);
            }
            i = i + 1;
        }
        None
    }

    /// Tells whether `identity` is a member whose power suffices without
    /// the other members.
    pub fn is_unilateral_member(&self, identity: &Identifier) -> (unilateral: bool)
        ensures
            unilateral == (spec_power_of(self.members@, *identity) matches Some(power)
                && power >= self.required_power),
    {
        match self.power_of(identity) {
            Some(power) => power >= self.required_power,
            None => false,
        }
    }
}

/// What the screen holds after the identity chose a change: the group whose
/// action the change is, by its place in the list of groups; why the
/// identity cannot make the change; and whether the power of the identity
/// suffices without the other members of the group.
#[derive(Clone, Copy, Debug, PartialEq, Eq)]
pub struct GroupForChange {
    pub group: Option<usize>,
    pub error: Option<ChangeNotAllowed>,
    pub is_unilateral_group_member: bool,
}

/// What the screen holds after the identity chose a change that the given
/// takers may make.
pub open spec fn spec_group_for_change(
    takers: AuthorizedActionTakers,
    contract_owner: Identifier,
    identity: Identifier,
    main_control_group: Option<u16>,
    groups: Seq<(u16, Group)>,
) -> GroupForChange {
    let position = match takers {
        AuthorizedActionTakers::MainGroup => main_control_group,
        AuthorizedActionTakers::Group(position) => Some(position),
        _ => None,
    };
    let index = match position {
        Some(p) => spec_group_index(groups, p),
        None => None,
    };
    GroupForChange {
        group: match index {
            Some(i) => Some(i as usize),
            None => None,
        },
        error: match takers {
            AuthorizedActionTakers::NoOne => Some(ChangeNotAllowed::NoOne),
            AuthorizedActionTakers::ContractOwner => if contract_owner != identity {
                Some(ChangeNotAllowed::NotContractOwner)
            } else {
                None
            },
            AuthorizedActionTakers::Identity(authorized) => if authorized != identity {
                Some(ChangeNotAllowed::NotTheAuthorizedIdentity)
            } else {
                None
            },
            _ => if position is None {
                Some(ChangeNotAllowed::NoMainControlGroup)
            } else if index is None {
                Some(ChangeNotAllowed::GroupNotFound(position->0))
            } else {
                None
            },
        },
        is_unilateral_group_member: index matches Some(i) && spec_power_of(
            groups[i].1.members@,
            identity,
        ) matches Some(power) && power >= groups[i].1.required_power,
    }
}

/// The place in `groups` of the first group that stands at `position` of
/// the contract.
pub fn group_index(groups: &Vec<(u16, Group)>, position: u16) -> (index: Option<usize>)
    ensures
        match index {
            Some(i) => spec_group_index(groups@, position) == Some(i as int) && i < groups@.len()
                && groups@[i as int].0 == position,
            None => spec_group_index(groups@, position) is None,
        },
{
    let mut i: usize = 0;
    assert(groups@.skip(0) =~= groups@);
    while i < groups.len()
        invariant
            i <= groups.len(),
            spec_group_index(groups@, position) == match spec_group_index(
                groups@.skip(i as int),
                position,
            ) {
                Some(k) => Some(k + i),
                None => None,
            },
        decreases groups.len() - i,
    {
        proof {
            assert(groups@.skip(i as int).first() == groups@[i as int]);
            assert(groups@.skip(i as int).drop_first() =~= groups@.skip(i + 1));
        }
        if groups[i].0 == position {
            return Some(i);
        }
        i = i + 1;
    }
    None
}

/// Finds the group whose action the chosen change is, and tells whether the
/// identity may make the change.
pub fn update_group_based_on_change_item(
    takers: &AuthorizedActionTakers,
    contract_owner: &Identifier,
    identity: &Identifier,
    main_control_group: Option<u16>,
    groups: &Vec<(u16, Group)>,
) -> (result: GroupForChange)
    ensures
        result == spec_group_for_change(*takers, *contract_owner, *identity, main_control_group, groups@),
{
    let mut error: Option<ChangeNotAllowed> = None;
    let mut group: Option<usize> = None;
    match takers {
        AuthorizedActionTakers::NoOne => {
            error = Some(ChangeNotAllowed::NoOne);
        },
        AuthorizedActionTakers::ContractOwner => {
            if !bytes_eq(contract_owner, identity) {
                error = Some(ChangeNotAllowed::NotContractOwner);
            }
        },
        AuthorizedActionTakers::Identity(authorized) => {
            if !bytes_eq(authorized, identity) {
                error = Some(ChangeNotAllowed::NotTheAuthorizedIdentity);
            }
        },
        AuthorizedActionTakers::MainGroup => {
            match main_control_group {
                None => {
                    error = Some(ChangeNotAllowed::NoMainControlGroup);
                },
                Some(position) => match group_index(groups, position) {
                    Some(i) => {
                        group = Some(i);
                    },
                    None => {
                        error = Some(ChangeNotAllowed::GroupNotFound(position));
                    },
                },
            }
        },
        AuthorizedActionTakers::Group(position) => match group_index(groups, *position) {
            Some(i) => {
                group = Some(i);
            },
            None => {
                error = Some(ChangeNotAllowed::GroupNotFound(*position));
            },
        },
    }
    let is_unilateral_group_member = match group {
        Some(i) => groups[i].1.is_unilateral_member(identity),
        None => false,
    };
    GroupForChange { group, error, is_unilateral_group_member }
}

/// Whether a change to the configuration of a token is being sent.
#[derive(Clone, Copy, Debug, PartialEq, Eq, Structural)]
pub enum UpdateTokenConfigStatus {
    NotUpdating,
    /// The change is being sent, since this time in seconds.
    Updating(i64),
}


impl UpdateTokenConfigStatus {
    /// The status after a message of the backend: the sending has ended
    /// when the backend reports that the change was made, or that it
    /// failed.
    pub fn after_message(self, message: &str, message_type: MessageType) -> (status:
        UpdateTokenConfigStatus)
        ensures
            status == if (message_type == MessageType::Success && bytes_contain(
                message.spec_bytes(),
                "Successfully updated token config item".spec_bytes(),
            )) || (message_type == MessageType::Error && bytes_contain(
                message.spec_bytes(),
                "Failed to update token config".spec_bytes(),
            )) {
                UpdateTokenConfigStatus::NotUpdating
            } else {
                self
            },
    {
        match message_type {
            MessageType::Success => {
                if text_contains(message, "Successfully updated token config item") {
                    return UpdateTokenConfigStatus::NotUpdating;
                }
            },
            MessageType::Error => {
                if text_contains(message, "Failed to update token config") {
                    return UpdateTokenConfigStatus::NotUpdating;
                }
            },
            MessageType::Info => {},
        }
        self
    }
}

/// How a change stands within the group that has to agree to it.
#[derive(Clone, Copy, Debug, PartialEq, Eq)]
pub enum GroupStateTransitionInfoStatus {
    /// The identity proposes the change to the group at this position.
    GroupStateTransitionInfoProposer(u16),
    /// The identity agrees to a change that another member proposed.
    GroupStateTransitionInfoOtherSigner(GroupStateTransitionInfo),
}

/// The proposed change that a member of a group agrees to.
#[derive(Clone, Copy, Debug, PartialEq, Eq)]
pub struct GroupStateTransitionInfo {
    pub group_contract_position: u16,
    pub action_id: Identifier,
    pub action_is_proposer: bool,
}

/// What goes to the backend with a change to the configuration of a token.
#[derive(Debug, PartialEq, Eq)]
pub struct UpdateTokenConfigRequest {
    pub change_item: TokenConfigurationChangeItem,
    pub public_note: Option<String>,
    pub group_info: Option<GroupStateTransitionInfoStatus>,
}

/// Whether the screen offers the button that sends the change: a change
/// has been chosen, and the button is not one for testing, or the
/// application shows what developers need.
pub fn offers_update(
    developer_mode: bool,
    button_text: &str,
    change_item: TokenConfigurationChangeItem,
) -> (offers: bool)
    ensures
        offers == ((developer_mode || !bytes_contain(
            button_text.spec_bytes(),
            "Test".spec_bytes(),
        )) && change_item != TokenConfigurationChangeItem::TokenConfigurationNoChange),
{
    let chosen = match change_item {
        TokenConfigurationChangeItem::TokenConfigurationNoChange => false,
        _ => true,
    };
    (developer_mode || !text_contains(button_text, "Test")) && chosen
}

/// How a change stands within the group at `group`: proposed by the
/// identity, or, where the identity agrees to the proposal `group_action_id`,
/// signed by it as another member. Without a group there is nothing to say.
pub open spec fn spec_group_info(group: Option<u16>, group_action_id: Option<Identifier>) -> Option<
    GroupStateTransitionInfoStatus,
> {
    match group {
        None => None,
        Some(position) => Some(
            match group_action_id {
                Some(action_id) => GroupStateTransitionInfoStatus::GroupStateTransitionInfoOtherSigner(
                    GroupStateTransitionInfo {
                        group_contract_position: position,
                        action_id,
                        action_is_proposer: false,
                    },
                ),
                None => GroupStateTransitionInfoStatus::GroupStateTransitionInfoProposer(position),
            },
        ),
    }
}

/// What goes to the backend when the button that sends the change is
/// clicked: the change, how it stands within the group, and the public
/// note, which only a proposal carries.
pub fn update_token_config_request(
    change_item: TokenConfigurationChangeItem,
    group: Option<u16>,
    group_action_id: Option<Identifier>,
    public_note: Option<String>,
) -> (request: UpdateTokenConfigRequest)
    ensures
        request.change_item == change_item,
        request.group_info == spec_group_info(group, group_action_id),
        crate::views::text_option_view(request.public_note) == if group_action_id is Some {
            None
        } else {
            crate::views::text_option_view(public_note)
        },
{
    let group_info = match group {
        None => None,
        Some(position) => Some(
            match group_action_id {
                Some(action_id) => GroupStateTransitionInfoStatus::GroupStateTransitionInfoOtherSigner(
                    GroupStateTransitionInfo {
                        group_contract_position: position,
                        action_id,
                        action_is_proposer: false,
                    },
                ),
                None => GroupStateTransitionInfoStatus::GroupStateTransitionInfoProposer(position),
            },
        ),
    };
    let public_note = match group_action_id {
        Some(_) => None,
        None => public_note,
    };
    UpdateTokenConfigRequest { change_item, public_note, group_info }
}

} // verus!
