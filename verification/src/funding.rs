//! The construction of an asset-lock funding transaction: which unspent
//! outputs it spends, what it credits, and what it returns to the wallet.

use crate::chain::{byte_vec_eq, Address, OutPoint, TxOut, TxOutView};
use crate::wallet::{
    all_free, is_free, lemma_marked_outputs_are_not_free, lemma_spent_outputs_are_gone,
    spec_remove_utxos, with_marks, UtxoView, Wallet, WalletView,
};
use vstd::prelude::*;
use vstd::std_specs::cmp::PartialEqSpecImpl;

verus! {

/// An unspent output that a funding transaction spends.
#[derive(Clone, Copy, Debug, Eq)]
pub struct FundingInput {
    pub outpoint: OutPoint,
    pub address: Address,
    pub value: u64,
}

impl PartialEq for FundingInput {
    fn eq(&self, other: &Self) -> (same: bool) {
        self.outpoint == other.outpoint && self.address == other.address && self.value
            == other.value
    }
}

impl PartialEqSpecImpl for FundingInput {
    open spec fn obeys_eq_spec() -> bool {
        true
    }

    open spec fn eq_spec(&self, other: &Self) -> bool {
        self.outpoint == other.outpoint && self.address == other.address && self.value
            == other.value
    }
}

/// A funding transaction before it is signed: the outputs it spends, the
/// value of its credit output, the value it returns to the wallet, and the
/// fee it leaves to the miners.
#[derive(Debug, PartialEq, Eq)]
pub struct AssetLockFunding {
    pub inputs: Vec<FundingInput>,
    pub credit_amount: u64,
    pub change: u64,
    pub fee: u64,
    /// The index of the identity whose registration key the credit output
    /// pays.
    pub identity_index: u32,
}

pub struct AssetLockFundingView {
    pub inputs: Seq<FundingInput>,
    pub credit_amount: u64,
    pub change: u64,
    pub fee: u64,
    pub identity_index: u32,
}

impl View for AssetLockFunding {
    type V = AssetLockFundingView;

    open spec fn view(&self) -> AssetLockFundingView {
        AssetLockFundingView {
            inputs: self.inputs@,
            credit_amount: self.credit_amount,
            change: self.change,
            fee: self.fee,
            identity_index: self.identity_index,
        }
    }
}

impl Clone for AssetLockFunding {
    fn clone(&self) -> (copy: AssetLockFunding)
        ensures
            copy@ == self@,
    {
        AssetLockFunding {
            inputs: self.inputs.clone(),
            credit_amount: self.credit_amount,
            change: self.change,
            fee: self.fee,
            identity_index: self.identity_index,
        }
    }
}

impl AssetLockFundingView {
    /// The outpoints that the transaction spends.
    pub open spec fn outpoints(self) -> Seq<OutPoint> {
        outpoints_of(self.inputs)
    }
}

impl AssetLockFunding {
    /// The outpoints that the transaction spends.
    pub fn outpoints(&self) -> (outpoints: Vec<OutPoint>)
        ensures
            outpoints@ == self@.outpoints(),
    {
        let mut outpoints: Vec<OutPoint> = Vec::new();
        let mut k: usize = 0;
        while k < self.inputs.len()
            invariant
                k <= self.inputs.len(),
                outpoints@ == outpoints_of(self.inputs@.take(k as int)),
            decreases self.inputs.len() - k,
        {
            outpoints.push(self.inputs[k].outpoint);
            assert(outpoints@ =~= outpoints_of(self.inputs@.take(k + 1)));
            k = k + 1;
        }
        assert(self.inputs@.take(k as int) =~= self.inputs@);
        outpoints
    }
}

/// The outpoints of a list of inputs.
pub open spec fn outpoints_of(inputs: Seq<FundingInput>) -> Seq<OutPoint> {
    Seq::new(inputs.len(), |k: int| inputs[k].outpoint)
}

/// Why no funding transaction was constructed.
#[derive(Clone, Copy, Debug, PartialEq, Eq, Structural)]
pub enum FundingError {
    /// The amount and the fee together do not fit in 64 bits.
    AmountOverflow,
    /// The outputs that can be spent do not cover the amount and the fee.
    InsufficientFunds,
    /// The wallet does not hold the output that the caller named.
    UtxoNotOwned,
    /// The wallet holds the outpoint with another value, script or address
    /// than the caller gave.
    UtxoMismatch,
    /// Another transaction under construction has claimed the output.
    UtxoReserved,
}

/// The input that spends `utxo`.
pub open spec fn input_of(utxo: UtxoView) -> FundingInput {
    FundingInput { outpoint: utxo.outpoint, address: utxo.address, value: utxo.value }
}

/// The outputs selected to cover `target`: going through `utxos` in order,
/// every output that is not reserved, until their values cover `target`.
pub open spec fn spec_select(utxos: Seq<UtxoView>, target: nat) -> Seq<FundingInput>
    decreases utxos.len(),
{
    if target == 0 || utxos.len() == 0 {
        Seq::empty()
    } else if utxos.first().reserved {
        spec_select(utxos.drop_first(), target)
    } else if utxos.first().value >= target {
        seq![input_of(utxos.first())]
    } else {
        seq![input_of(utxos.first())] + spec_select(
            utxos.drop_first(),
            (target - utxos.first().value) as nat,
        )
    }
}

/// What is still missing of `target` once every output that is not reserved
/// has been selected.
pub open spec fn spec_shortfall(utxos: Seq<UtxoView>, target: nat) -> nat
    decreases utxos.len(),
{
    if target == 0 || utxos.len() == 0 {
        target
    } else if utxos.first().reserved {
        spec_shortfall(utxos.drop_first(), target)
    } else if utxos.first().value >= target {
        0
    } else {
        spec_shortfall(utxos.drop_first(), (target - utxos.first().value) as nat)
    }
}

/// What the selected outputs hold beyond `target`.
pub open spec fn spec_change(utxos: Seq<UtxoView>, target: nat) -> nat
    decreases utxos.len(),
{
    if target == 0 || utxos.len() == 0 {
        0
    } else if utxos.first().reserved {
        spec_change(utxos.drop_first(), target)
    } else if utxos.first().value >= target {
        (utxos.first().value - target) as nat
    } else {
        spec_change(utxos.drop_first(), (target - utxos.first().value) as nat)
    }
}

/// The sum of the values of the outputs that are not reserved.
pub open spec fn spendable_total(utxos: Seq<UtxoView>) -> nat
    decreases utxos.len(),
{
    if utxos.len() == 0 {
        0
    } else {
        spendable_total(utxos.drop_first()) + if utxos.first().reserved {
            0
        } else {
            utxos.first().value as nat
        }
    }
}

/// The sum of the values of a list of inputs.
pub open spec fn inputs_total(inputs: Seq<FundingInput>) -> nat
    decreases inputs.len(),
{
    if inputs.len() == 0 {
        0
    } else {
        inputs_total(inputs.drop_first()) + inputs.first().value as nat
    }
}

/// A target is covered exactly when the outputs that are not reserved hold
/// at least as much; what is missing otherwise is the difference.
pub proof fn lemma_shortfall(utxos: Seq<UtxoView>, target: nat)
    ensures
        spec_shortfall(utxos, target) == if spendable_total(utxos) >= target {
            0
        } else {
            (target - spendable_total(utxos)) as nat
        },
    decreases utxos.len(),
{
    if target != 0 && utxos.len() != 0 {
        if utxos.first().reserved {
            lemma_shortfall(utxos.drop_first(), target);
        } else if utxos.first().value < target {
            lemma_shortfall(utxos.drop_first(), (target - utxos.first().value) as nat);
        }
    }
}

/// Where a target is covered, the selected inputs hold the target and the
/// change, and nothing else.
pub proof fn lemma_selection_balances(utxos: Seq<UtxoView>, target: nat)
    requires
        spec_shortfall(utxos, target) == 0,
    ensures
        inputs_total(spec_select(utxos, target)) == target + spec_change(utxos, target),
    decreases utxos.len(),
{
    if target != 0 && utxos.len() != 0 {
        let first = input_of(utxos.first());
        if utxos.first().reserved {
            lemma_selection_balances(utxos.drop_first(), target);
        } else if utxos.first().value >= target {
            let only = seq![first];
            assert(only.drop_first() =~= Seq::<FundingInput>::empty());
            assert(only.first() == first);
            assert(inputs_total(only.drop_first()) == 0);
            assert(inputs_total(only) == first.value);
        } else {
            let rest = spec_select(utxos.drop_first(), (target - utxos.first().value) as nat);
            lemma_selection_balances(utxos.drop_first(), (target - utxos.first().value) as nat);
            let all = seq![first] + rest;
            assert(all.drop_first() =~= rest);
            assert(all.first() == first);
            assert(inputs_total(all) == inputs_total(rest) + first.value);
        }
    }
}

/// Every selected input spends an output of the list that is not reserved.
pub proof fn lemma_selection_is_free(utxos: Seq<UtxoView>, target: nat)
    ensures
        all_free(utxos, outpoints_of(spec_select(utxos, target))),
    decreases utxos.len(),
{
    let selected = spec_select(utxos, target);
    if target != 0 && utxos.len() != 0 {
        let rest = utxos.drop_first();
        let first = input_of(utxos.first());
        let target_rest = if utxos.first().reserved {
            target
        } else {
            (target - utxos.first().value) as nat
        };
        if utxos.first().reserved || utxos.first().value < target {
            lemma_selection_is_free(rest, target_rest);
        }
        assert forall|k: int| 0 <= k < outpoints_of(selected).len() implies is_free(
            utxos,
            #[trigger] outpoints_of(selected)[k],
        ) by {
            if !utxos.first().reserved && k == 0 {
                assert(utxos[0].outpoint == selected[0].outpoint);
            } else {
                let inner = spec_select(rest, target_rest);
                let ki = if utxos.first().reserved {
                    k
                } else {
                    k - 1
                };
                assert(selected[k] == inner[ki]);
                assert(is_free(rest, outpoints_of(inner)[ki]));
                let w = choose|w: int|
                    0 <= w < rest.len() && (#[trigger] rest[w]).outpoint == inner[ki].outpoint
                        && !rest[w].reserved;
                assert(utxos[w + 1] == rest[w]);
            }
        }
    }
}


/// The view of the outcome of a construction.
pub open spec fn funding_result_view(result: Result<AssetLockFunding, FundingError>) -> Result<
    AssetLockFundingView,
    FundingError,
> {
    match result {
        Ok(funding) => Ok(funding@),
        Err(e) => Err(e),
    }
}

/// The first output of the list that is not reserved.
pub open spec fn spec_first_free(utxos: Seq<UtxoView>) -> Option<UtxoView>
    decreases utxos.len(),
{
    if utxos.len() == 0 {
        None
    } else if !utxos.first().reserved {
        Some(utxos.first())
    } else {
        spec_first_free(utxos.drop_first())
    }
}

/// The first output that is not reserved is an output of the list that is
/// not reserved.
pub proof fn lemma_first_free_is_free(utxos: Seq<UtxoView>)
    ensures
        spec_first_free(utxos) matches Some(utxo) ==> is_free(utxos, utxo.outpoint)
            && utxos.contains(utxo),
        spec_first_free(utxos) is None ==> forall|i: int|
            0 <= i < utxos.len() ==> (#[trigger] utxos[i]).reserved,
    decreases utxos.len(),
{
    if utxos.len() > 0 {
        if !utxos.first().reserved {
            assert(utxos[0] == utxos.first());
        } else {
            let rest = utxos.drop_first();
            lemma_first_free_is_free(rest);
            match spec_first_free(rest) {
                Some(utxo) => {
                    let w = choose|w: int|
                        0 <= w < rest.len() && (#[trigger] rest[w]).outpoint == utxo.outpoint
                            && !rest[w].reserved;
                    assert(utxos[w + 1] == rest[w]);
                    let c = choose|c: int| 0 <= c < rest.len() && rest[c] == utxo;
                    assert(utxos[c + 1] == utxo);
                },
                None => {
                    assert forall|i: int| 0 <= i < utxos.len() implies (
                    #[trigger] utxos[i]).reserved by {
                        if i > 0 {
                            assert(rest[i - 1] == utxos[i]);
                        }
                    }
                },
            }
        }
    }
}

/// The funding transaction that credits `amount` and pays `fee` from the
/// outputs of `wallet` that are not reserved: the outputs in order until
/// they cover both. A transaction spends at least one output: where amount
/// and fee are both zero, the first output that is not reserved is spent
/// and returns whole to the wallet.
pub open spec fn spec_funding(
    wallet: WalletView,
    amount: u64,
    fee: u64,
    identity_index: u32,
) -> Result<AssetLockFundingView, FundingError> {
    let target = (amount + fee) as nat;
    if amount + fee > u64::MAX {
        Err(FundingError::AmountOverflow)
    } else if target == 0 {
        match spec_first_free(wallet.utxos) {
            None => Err(FundingError::InsufficientFunds),
            Some(utxo) => Ok(
                AssetLockFundingView {
                    inputs: seq![input_of(utxo)],
                    credit_amount: amount,
                    change: utxo.value,
                    fee,
                    identity_index,
                },
            ),
        }
    } else if spec_shortfall(wallet.utxos, target) > 0 {
        Err(FundingError::InsufficientFunds)
    } else {
        Ok(
            AssetLockFundingView {
                inputs: spec_select(wallet.utxos, target),
                credit_amount: amount,
                change: spec_change(wallet.utxos, target) as u64,
                fee,
                identity_index,
            },
        )
    }
}

/// The funding transaction that spends the one output `utxo`, which the
/// caller describes by `tx_out` and `input_address`, and credits its value
/// less `fee`.
pub open spec fn spec_funding_for_utxo(
    wallet: WalletView,
    utxo: OutPoint,
    tx_out: TxOutView,
    input_address: Address,
    fee: u64,
    identity_index: u32,
) -> Result<AssetLockFundingView, FundingError> {
    let held = wallet.utxo_with(utxo);
    if !wallet.holds(utxo) {
        Err(FundingError::UtxoNotOwned)
    } else if held.address != input_address || held.value != tx_out.value || held.script_pubkey
        != tx_out.script_pubkey {
        Err(FundingError::UtxoMismatch)
    } else if held.reserved {
        Err(FundingError::UtxoReserved)
    } else if held.value <= fee {
        Err(FundingError::InsufficientFunds)
    } else {
        Ok(
            AssetLockFundingView {
                inputs: seq![input_of(held)],
                credit_amount: (held.value - fee) as u64,
                change: 0,
                fee,
                identity_index,
            },
        )
    }
}

impl Wallet {
    /// Plans a funding transaction that credits nothing and pays no fee: it
    /// spends the first output that is not reserved, which returns whole to
    /// the wallet.
    fn fund_from_first_free(&mut self, amount: u64, fee: u64, identity_index: u32) -> (result:
        Result<AssetLockFunding, FundingError>)
        requires
            old(self).wf(),
            amount == 0,
            fee == 0,
        ensures
            final(self).wf(),
            funding_result_view(result) == spec_funding(old(self)@, amount, fee, identity_index),
            result matches Ok(funding) ==> final(self)@ == (WalletView {
                utxos: with_marks(old(self)@.utxos, funding@.outpoints(), true),
                ..old(self)@
            }),
            result is Err ==> final(self)@ == old(self)@,
    {
        let ghost all = self@.utxos;
        let count = self.utxo_count();
        let mut i: usize = 0;
        assert(all.skip(0) =~= all);
        while i < count
            invariant
                self == old(self),
                self.wf(),
                all == self@.utxos,
                count == all.len(),
                i <= count,
                amount == 0,
                fee == 0,
                spec_first_free(all) == spec_first_free(all.skip(i as int)),
            decreases count - i,
        {
            let utxo = self.utxo_summary(i);
            proof {
                assert(all.skip(i as int).first() == all[i as int]);
                assert(all.skip(i as int).drop_first() =~= all.skip(i + 1));
            }
            if !utxo.reserved {
                let mut claimed: Vec<OutPoint> = Vec::new();
                claimed.push(utxo.outpoint);
                let mut inputs: Vec<FundingInput> = Vec::new();
                inputs.push(
                    FundingInput {
                        outpoint: utxo.outpoint,
                        address: utxo.address,
                        value: utxo.value,
                    },
                );
                proof {
                    assert(spec_first_free(all.skip(i as int)) == Some(all[i as int]));
                    lemma_first_free_is_free(all);
                    assert(inputs@ =~= seq![input_of(all[i as int])]);
                    assert(claimed@ =~= outpoints_of(inputs@));
                    assert(is_free(all, claimed@[0]));
                    assert(all_free(all, claimed@));
                }
                return match self.reserve(&claimed) {
                    Ok(()) => Ok(
                        AssetLockFunding {
                            inputs,
                            credit_amount: amount,
                            change: utxo.value,
                            fee,
                            identity_index,
                        },
                    ),
                    Err(_) => Err(FundingError::InsufficientFunds),
                };
            }
            i = i + 1;
        }
        Err(FundingError::InsufficientFunds)
    }

    /// Plans the funding transaction of an identity registration from the
    /// wallet's balance: selects unspent outputs that cover `amount` and
    /// `fee`, and reserves them until the transaction is broadcast or given
    /// up. The credit output is worth `amount`; what the selected outputs
    /// hold beyond `amount` and `fee` returns to the wallet.
    ///
    /// Where the outputs that are not reserved do not cover both, nothing is
    /// reserved. The transaction spends at least one output, also where
    /// amount and fee are both zero.
    pub fn registration_asset_lock_transaction(
        &mut self,
        amount: u64,
        fee: u64,
        identity_index: u32,
    ) -> (result: Result<AssetLockFunding, FundingError>)
        requires
            old(self).wf(),
        ensures
            final(self).wf(),
            funding_result_view(result) == spec_funding(old(self)@, amount, fee, identity_index),
            result matches Ok(funding) ==> final(self)@ == (WalletView {
                utxos: with_marks(old(self)@.utxos, funding@.outpoints(), true),
                ..old(self)@
            }),
            result is Err ==> final(self)@ == old(self)@,
    {
        let target = match amount.checked_add(fee) {
            Some(target) => target,
            None => {
                return Err(FundingError::AmountOverflow);
            },
        };
        if target == 0 {
            return self.fund_from_first_free(amount, fee, identity_index);
        }
        let ghost all = self@.utxos;
        let count = self.utxo_count();
        let mut picked: Vec<FundingInput> = Vec::new();
        let mut claimed: Vec<OutPoint> = Vec::new();
        let mut remaining: u64 = target;
        let mut change: u64 = 0;
        let mut i: usize = 0;
        assert(all.skip(0) =~= all);
        while i < count && remaining > 0
            invariant
                self == old(self),
                self.wf(),
                all == self@.utxos,
                count == all.len(),
                i <= count,
                claimed@ == outpoints_of(picked@),
                spec_select(all, target as nat) == picked@ + spec_select(
                    all.skip(i as int),
                    remaining as nat,
                ),
                spec_shortfall(all, target as nat) == spec_shortfall(
                    all.skip(i as int),
                    remaining as nat,
                ),
                spec_change(all, target as nat) == if remaining == 0 {
                    change as nat
                } else {
                    spec_change(all.skip(i as int), remaining as nat)
                },
            decreases count - i,
        {
            let utxo = self.utxo_summary(i);
            proof {
                assert(all.skip(i as int).first() == all[i as int]);
                assert(all.skip(i as int).drop_first() =~= all.skip(i + 1));
            }
            if !utxo.reserved {
                let ghost before = picked@;
                let ghost input = input_of(all[i as int]);
                picked.push(
                    FundingInput {
                        outpoint: utxo.outpoint,
                        address: utxo.address,
                        value: utxo.value,
                    },
                );
                claimed.push(utxo.outpoint);
                assert(claimed@ =~= outpoints_of(picked@));
                if utxo.value >= remaining {
                    change = utxo.value - remaining;
                    remaining = 0;
                    assert(picked@ + spec_select(all.skip(i + 1), 0) =~= before + seq![input]);
                } else {
                    remaining = remaining - utxo.value;
                    assert(picked@ + spec_select(all.skip(i + 1), remaining as nat) =~= before
                        + (seq![input] + spec_select(all.skip(i + 1), remaining as nat)));
                }
            }
            i = i + 1;
        }
        if remaining > 0 {
            return Err(FundingError::InsufficientFunds);
        }
        proof {
            assert(picked@ + Seq::<FundingInput>::empty() =~= picked@);
            lemma_selection_is_free(all, target as nat);
        }
        match self.reserve(&claimed) {
            Ok(()) => Ok(
                AssetLockFunding { inputs: picked, credit_amount: amount, change, fee, identity_index },
            ),
            Err(_) => Err(FundingError::InsufficientFunds),
        }
    }

    /// Plans the funding transaction of an identity registration from one
    /// unspent output that the caller names, and reserves that output. The
    /// credit output is worth the value of the output less `fee`.
    ///
    /// The output must be one that the wallet holds, with the value, script
    /// and address that the caller gives, and no other construction may have
    /// claimed it; otherwise nothing is reserved.
    pub fn registration_asset_lock_transaction_for_utxo(
        &mut self,
        utxo: OutPoint,
        tx_out: &TxOut,
        input_address: Address,
        fee: u64,
        identity_index: u32,
    ) -> (result: Result<AssetLockFunding, FundingError>)
        requires
            old(self).wf(),
        ensures
            final(self).wf(),
            funding_result_view(result) == spec_funding_for_utxo(
                old(self)@,
                utxo,
                tx_out@,
                input_address,
                fee,
                identity_index,
            ),
            result matches Ok(funding) ==> funding@.outpoints() == seq![utxo] && final(self)@ == (
            WalletView {
                utxos: with_marks(old(self)@.utxos, funding@.outpoints(), true),
                ..old(self)@
            }),
            result is Err ==> final(self)@ == old(self)@,
    {
        proof {
            self.lemma_wf_view();
        }
        let ghost all = self@.utxos;
        let value = match self.utxo(&utxo) {
            None => {
                return Err(FundingError::UtxoNotOwned);
            },
            Some(held) => {
                proof {
                    let i = choose|i: int|
                        0 <= i < all.len() && #[trigger] all[i] == (UtxoView {
                            reserved: all[i].reserved,
                            ..held@
                        });
                    let w = choose|w: int|
                        0 <= w < all.len() && (#[trigger] all[w]).outpoint == utxo;
                    assert(i == w);
                }
                if !(held.address == input_address) || held.output.value != tx_out.value
                    || !byte_vec_eq(&held.output.script_pubkey, &tx_out.script_pubkey) {
                    return Err(FundingError::UtxoMismatch);
                }
                held.output.value
            },
        };
        let reserved = self.is_reserved(&utxo);
        proof {
            let w = choose|w: int| 0 <= w < all.len() && (#[trigger] all[w]).outpoint == utxo;
            if is_free(all, utxo) {
                let f = choose|f: int|
                    0 <= f < all.len() && (#[trigger] all[f]).outpoint == utxo
                        && !all[f].reserved;
                assert(f == w);
            } else {
                assert(all[w].reserved);
            }
        }
        if reserved {
            return Err(FundingError::UtxoReserved);
        }
        if value <= fee {
            return Err(FundingError::InsufficientFunds);
        }
        let mut claimed: Vec<OutPoint> = Vec::new();
        claimed.push(utxo);
        assert(claimed@ =~= seq![utxo]);
        assert(all_free(all, claimed@));
        let mut inputs: Vec<FundingInput> = Vec::new();
        inputs.push(FundingInput { outpoint: utxo, address: input_address, value });
        assert(inputs@ =~= seq![input_of(self@.utxo_with(utxo))]);
        assert(outpoints_of(inputs@) =~= seq![utxo]);
        match self.reserve(&claimed) {
            Ok(()) => Ok(
                AssetLockFunding {
                    inputs,
                    credit_amount: value - fee,
                    change: 0,
                    fee,
                    identity_index,
                },
            ),
            Err(_) => Err(FundingError::InsufficientFunds),
        }
    }
}


/// The wallet after the inputs of a planned funding transaction were
/// reserved.
pub open spec fn spec_after_reserving(wallet: WalletView, funding: AssetLockFundingView) -> WalletView {
    WalletView { utxos: with_marks(wallet.utxos, funding.outpoints(), true), ..wallet }
}

/// While a funding transaction that spends an unspent output is under
/// construction, a second construction that names the same output is
/// refused: the output is reserved.
pub proof fn lemma_second_funding_of_utxo_is_refused(
    wallet: WalletView,
    utxo: OutPoint,
    tx_out: TxOutView,
    input_address: Address,
    fee: u64,
    identity_index: u32,
    second_fee: u64,
    second_identity_index: u32,
)
    requires
        wallet.wf(),
        spec_funding_for_utxo(wallet, utxo, tx_out, input_address, fee, identity_index) is Ok,
    ensures
        spec_funding_for_utxo(
            spec_after_reserving(
                wallet,
                spec_funding_for_utxo(
                    wallet,
                    utxo,
                    tx_out,
                    input_address,
                    fee,
                    identity_index,
                )->Ok_0,
            ),
            utxo,
            tx_out,
            input_address,
            second_fee,
            second_identity_index,
        ) == Err::<AssetLockFundingView, FundingError>(FundingError::UtxoReserved),
{
    let first = spec_funding_for_utxo(wallet, utxo, tx_out, input_address, fee, identity_index)->Ok_0;
    let claimed = first.outpoints();
    let marked = spec_after_reserving(wallet, first);
    let i = choose|i: int|
        0 <= i < wallet.utxos.len() && (#[trigger] wallet.utxos[i]).outpoint == utxo;
    assert(claimed[0] == utxo);
    assert(claimed.contains(utxo));
    assert(marked.utxos[i].outpoint == utxo);
    let j = choose|j: int|
        0 <= j < marked.utxos.len() && (#[trigger] marked.utxos[j]).outpoint == utxo;
    assert(wallet.utxos[j].outpoint == utxo);
    assert(i == j);
}

/// Once the outputs of a funding transaction have left the wallet, a
/// second construction that names one of them is refused: the wallet does
/// not hold the output.
pub proof fn lemma_funding_of_spent_utxo_is_refused(
    wallet: WalletView,
    spent: Seq<OutPoint>,
    utxo: OutPoint,
    tx_out: TxOutView,
    input_address: Address,
    fee: u64,
    identity_index: u32,
)
    requires
        spent.contains(utxo),
    ensures
        !spec_remove_utxos(wallet, spent).holds(utxo),
        spec_funding_for_utxo(
            spec_remove_utxos(wallet, spent),
            utxo,
            tx_out,
            input_address,
            fee,
            identity_index,
        ) == Err::<AssetLockFundingView, FundingError>(FundingError::UtxoNotOwned),
{
    lemma_spent_outputs_are_gone(wallet.utxos, spent, utxo);
}

/// No selected input spends a reserved output.
pub proof fn lemma_selection_skips_reserved(utxos: Seq<UtxoView>, target: nat, k: int)
    requires
        0 <= k < spec_select(utxos, target).len(),
    ensures
        is_free(utxos, spec_select(utxos, target)[k].outpoint),
{
    lemma_selection_is_free(utxos, target);
    assert(is_free(utxos, outpoints_of(spec_select(utxos, target))[k]));
}

/// Two funding transactions that are planned one after the other from the
/// balance of one wallet spend no output in common: the second is planned
/// from what the first has not reserved.
pub proof fn lemma_plans_share_no_input(
    wallet: WalletView,
    amount: u64,
    fee: u64,
    identity_index: u32,
    second_amount: u64,
    second_fee: u64,
    second_identity_index: u32,
    k: int,
)
    requires
        wallet.wf(),
        spec_funding(wallet, amount, fee, identity_index) is Ok,
        spec_funding(
            spec_after_reserving(wallet, spec_funding(wallet, amount, fee, identity_index)->Ok_0),
            second_amount,
            second_fee,
            second_identity_index,
        ) is Ok,
        0 <= k < spec_funding(
            spec_after_reserving(wallet, spec_funding(wallet, amount, fee, identity_index)->Ok_0),
            second_amount,
            second_fee,
            second_identity_index,
        )->Ok_0.inputs.len(),
    ensures
        !spec_funding(wallet, amount, fee, identity_index)->Ok_0.outpoints().contains(
            spec_funding(
                spec_after_reserving(
                    wallet,
                    spec_funding(wallet, amount, fee, identity_index)->Ok_0,
                ),
                second_amount,
                second_fee,
                second_identity_index,
            )->Ok_0.inputs[k].outpoint,
        ),
{
    let first = spec_funding(wallet, amount, fee, identity_index)->Ok_0;
    let marked = spec_after_reserving(wallet, first);
    let second = spec_funding(marked, second_amount, second_fee, second_identity_index)->Ok_0;
    let outpoint = second.inputs[k].outpoint;
    if second_amount + second_fee == 0 {
        lemma_first_free_is_free(marked.utxos);
    } else {
        lemma_selection_skips_reserved(marked.utxos, (second_amount + second_fee) as nat, k);
    }
    if first.outpoints().contains(outpoint) {
        lemma_marked_outputs_are_not_free(wallet.utxos, first.outpoints(), outpoint);
    }
}


/// A wallet that holds exactly one unspent output, not reserved and worth
/// more than amount and fee together, funds from that output: the plan
/// spends it, credits the amount, and returns the rest less the fee.
pub proof fn lemma_single_output_is_spent(
    wallet: WalletView,
    amount: u64,
    fee: u64,
    identity_index: u32,
)
    requires
        wallet.utxos.len() == 1,
        !wallet.utxos[0].reserved,
        wallet.utxos[0].value > amount + fee,
    ensures
        spec_funding(wallet, amount, fee, identity_index) == Ok::<
            AssetLockFundingView,
            FundingError,
        >(
            AssetLockFundingView {
                inputs: seq![input_of(wallet.utxos[0])],
                credit_amount: amount,
                change: (wallet.utxos[0].value - amount - fee) as u64,
                fee,
                identity_index,
            },
        ),
        spec_funding(wallet, amount, fee, identity_index)->Ok_0.outpoints() == seq![
            wallet.utxos[0].outpoint,
        ],
{
    let only = wallet.utxos[0];
    assert(wallet.utxos.first() == only);
    assert(outpoints_of(seq![input_of(only)]) =~= seq![only.outpoint]);
}

/// Every input of a funding transaction planned from the balance spends an
/// output of the wallet that was not reserved.
pub proof fn lemma_funding_inputs_are_free(
    wallet: WalletView,
    amount: u64,
    fee: u64,
    identity_index: u32,
)
    requires
        spec_funding(wallet, amount, fee, identity_index) is Ok,
    ensures
        all_free(
            wallet.utxos,
            spec_funding(wallet, amount, fee, identity_index)->Ok_0.outpoints(),
        ),
        spec_funding(wallet, amount, fee, identity_index)->Ok_0.inputs.len() > 0,
{
    let plan = spec_funding(wallet, amount, fee, identity_index)->Ok_0;
    if amount + fee == 0 {
        lemma_first_free_is_free(wallet.utxos);
        assert forall|k: int| 0 <= k < plan.outpoints().len() implies is_free(
            wallet.utxos,
            #[trigger] plan.outpoints()[k],
        ) by {}
    } else {
        lemma_selection_is_free(wallet.utxos, (amount + fee) as nat);
        lemma_selection_is_not_empty(wallet.utxos, (amount + fee) as nat);
    }
}

/// A target above zero that is covered is covered by at least one output.
pub proof fn lemma_selection_is_not_empty(utxos: Seq<UtxoView>, target: nat)
    requires
        target > 0,
        spec_shortfall(utxos, target) == 0,
    ensures
        spec_select(utxos, target).len() > 0,
    decreases utxos.len(),
{
    if utxos.len() > 0 {
        if utxos.first().reserved {
            lemma_selection_is_not_empty(utxos.drop_first(), target);
        }
    }
}

} // verus!
