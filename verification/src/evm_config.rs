//! The Gnosis post-execution reward. On top of the mainnet beneficiary
//! reward, from London on the base fee that Ethereum burns is minted to a
//! collector address: `basefee * (gas spent - gas refunded)`, added to the
//! collector's balance with saturation.
//!
//! Loading accounts and writing balances goes through the EVM's database and
//! journal; the values read there are handed to the functions below, which
//! compute what is written back.

use vstd::prelude::*;
use crate::u256::{U256, saturated_sum, modulus, max_value};
use crate::primitives::Address;

verus! {

/// Gas accounting of one transaction: the limit it was given, what is left of
/// it, and the refund that was granted.
#[derive(Clone, Copy, Debug, PartialEq, Eq, Structural)]
pub struct Gas {
    limit: u64,
    remaining: u64,
    refunded: i64,
}

impl Gas {
    /// Never more gas remains than the limit allowed.
    pub open spec fn wf(&self) -> bool {
        self.remaining_view() <= self.limit_view()
    }

    pub closed spec fn limit_view(&self) -> u64 {
        self.limit
    }

    pub closed spec fn remaining_view(&self) -> u64 {
        self.remaining
    }

    pub closed spec fn refunded_view(&self) -> i64 {
        self.refunded
    }

    /// Gas spent: the limit less what remains.
    pub open spec fn spent_view(&self) -> int {
        self.limit_view() - self.remaining_view()
    }

    /// Gas that the transaction pays for: spent less refunded.
    pub open spec fn used_view(&self) -> int {
        self.spent_view() - self.refunded_view()
    }

    /// The refund can be taken from what was spent: it is neither negative
    /// nor more than the gas spent.
    pub open spec fn refund_in_range(&self) -> bool {
        0 <= self.refunded_view() <= self.spent_view()
    }

    /// Gas accounting with the given limit, remaining gas and refund.
    pub fn from_parts(limit: u64, remaining: u64, refunded: i64) -> (g: Gas)
        requires
            remaining <= limit,
        ensures
            g.wf(),
            g.limit_view() == limit,
            g.remaining_view() == remaining,
            g.refunded_view() == refunded,
    {
        Gas { limit, remaining, refunded }
    }

    /// The gas limit.
    pub fn limit(&self) -> (r: u64)
        ensures
            r == self.limit_view(),
    {
        self.limit
    }

    /// The gas that remains.
    pub fn remaining(&self) -> (r: u64)
        ensures
            r == self.remaining_view(),
    {
        self.remaining
    }

    /// The refunded gas.
    pub fn refunded(&self) -> (r: i64)
        ensures
            r == self.refunded_view(),
    {
        self.refunded
    }

    /// The gas spent: limit less remaining.
    pub fn spent(&self) -> (r: u64)
        requires
            self.wf(),
        ensures
            r == self.spent_view(),
    {
        self.limit - self.remaining
    }

    /// The gas paid for: spent less refunded.
    pub fn used(&self) -> (r: u64)
        requires
            self.wf(),
            self.refund_in_range(),
        ensures
            r == self.used_view(),
            r == self.limit_view() - self.remaining_view() - self.refunded_view(),
    {
        self.spent() - self.refunded as u64
    }
}

/// Base fee times gas used, reduced modulo 2^256 (the EVM's word arithmetic).
pub open spec fn basefee_amount(basefee: int, gas_used: int) -> int {
    (basefee * gas_used) % modulus()
}

/// What the collector receives for a transaction: the base fee times the gas
/// the transaction pays for, in 256-bit word arithmetic.
pub fn basefee_mint_amount(basefee: U256, gas: &Gas) -> (r: U256)
    requires
        gas.wf(),
        gas.refund_in_range(),
    ensures
        r.value() == basefee_amount(basefee.value(), gas.used_view()),
        r.value() == (basefee.value() * (gas.limit_view() - gas.remaining_view() - gas.refunded_view())) % modulus(),
{
    let gas_used = U256::from_u64(gas.used());
    basefee.wrapping_mul(gas_used)
}

/// The collector's balance after the mint: the balance plus the minted
/// amount, capped at 2^256 - 1.
pub open spec fn minted_balance(balance: int, basefee: int, gas_used: int) -> int {
    saturated_sum(balance, basefee_amount(basefee, gas_used))
}

/// Mints the base fee to the collector: given the collector's balance as the
/// journal holds it (after loading the account), the block's base fee and the
/// transaction's gas, returns the collector's new balance, which is the old
/// balance plus the minted amount, capped at 2^256 - 1.
pub fn mint_basefee_to_collector_address(collector_balance: U256, basefee: U256, gas: &Gas) -> (r: U256)
    requires
        gas.wf(),
        gas.refund_in_range(),
    ensures
        r.value() == minted_balance(collector_balance.value(), basefee.value(), gas.used_view()),
        ({
            let paid = (basefee.value() * (gas.limit_view() - gas.remaining_view() - gas.refunded_view())) % modulus();
            r.value() == if collector_balance.value() + paid <= max_value() {
                collector_balance.value() + paid
            } else {
                max_value()
            }
        }),
{
    let amount = basefee_mint_amount(basefee, gas);
    collector_balance.saturating_add(amount)
}

/// The gas a transaction pays for is its limit, less the gas that remains,
/// less the refund: a transfer of 21000 gas under a 50000 limit pays for
/// 21000, whatever the refund is.
pub proof fn lemma_gas_used_is_limit_less_remaining_less_refund(g: Gas)
    ensures
        g.used_view() == g.limit_view() - g.remaining_view() - g.refunded_view(),
        g.spent_view() == g.limit_view() - g.remaining_view(),
{
}

/// The mint never lowers the collector's balance, and never takes it past
/// 2^256 - 1.
pub proof fn lemma_mint_never_decreases(balance: int, basefee: int, gas_used: int)
    requires
        0 <= balance <= max_value(),
    ensures
        balance <= minted_balance(balance, basefee, gas_used) <= max_value(),
{
    assert(modulus() > 0);
}

/// The mint adds exactly the minted amount wherever the sum fits.
pub proof fn lemma_mint_exact_when_no_overflow(balance: int, basefee: int, gas_used: int)
    requires
        balance + basefee_amount(basefee, gas_used) <= max_value(),
    ensures
        minted_balance(balance, basefee, gas_used) == balance + basefee_amount(basefee, gas_used),
{
}

/// A zero base fee, or a transaction that pays for no gas, mints nothing.
pub proof fn lemma_mint_nothing_without_fee(balance: int, basefee: int, gas_used: int)
    requires
        0 <= balance <= max_value(),
        basefee == 0 || gas_used == 0,
    ensures
        minted_balance(balance, basefee, gas_used) == balance,
{
    assert(basefee * gas_used == 0) by (nonlinear_arith)
        requires basefee == 0 || gas_used == 0;
}

/// One step of the post-execution reward.
#[derive(Clone, Copy, Debug, PartialEq, Eq)]
pub enum RewardAction {
    /// Pay the mainnet beneficiary reward (the priority fee, or before
    /// London the whole gas price) to the block's beneficiary.
    MainnetBeneficiary,
    /// Mint the base fee to the collector at this address.
    MintBasefee { collector: Address },
}

/// The step of the post-execution reward that comes after `steps_done`
/// steps, the last of which succeeded or not: first the mainnet beneficiary
/// reward; then, from London on and only if that succeeded, the base-fee
/// mint to the collector; then nothing. After a failed step nothing follows:
/// the reward ends with that step's error.
pub open spec fn next_reward_action(london: bool, collector: Address, steps_done: int, last_ok: bool) -> Option<RewardAction> {
    if steps_done == 0 {
        Some(RewardAction::MainnetBeneficiary)
    } else if steps_done == 1 && last_ok && london {
        Some(RewardAction::MintBasefee { collector })
    } else {
        None
    }
}

/// The post-execution reward, one step at a time: given how many steps ran
/// and whether the last one succeeded, the step to run next, or `None` when
/// the reward is over. The reward's result is that of the last step run.
pub fn reward_beneficiary(london: bool, collector_address: Address, steps_done: u64, last_ok: bool) -> (r: Option<RewardAction>)
    ensures
        r == next_reward_action(london, collector_address, steps_done as int, last_ok),
        steps_done == 0 ==> r == Some(RewardAction::MainnetBeneficiary),
        steps_done > 0 && !last_ok ==> r is None,
        steps_done == 1 && last_ok ==> r == if london {
            Some(RewardAction::MintBasefee { collector: collector_address })
        } else {
            None
        },
        steps_done >= 2 ==> r is None,
{
    if steps_done == 0 {
        Some(RewardAction::MainnetBeneficiary)
    } else if steps_done == 1 && last_ok && london {
        Some(RewardAction::MintBasefee { collector: collector_address })
    } else {
        None
    }
}

/// Running the reward step by step, where the mainnet reward succeeds or not
/// (`mainnet_ok`) and the mint, if it runs, succeeds or not (`mint_ok`): the
/// mainnet reward runs first; the mint runs exactly when London is on and
/// the mainnet reward succeeded; the reward then ends, and it succeeds
/// exactly when every step that ran succeeded. A failing mainnet reward
/// thus ends the reward with its error, before any mint.
pub proof fn lemma_reward_run(london: bool, collector: Address, mainnet_ok: bool, mint_ok: bool)
    ensures
        next_reward_action(london, collector, 0, true) == Some(RewardAction::MainnetBeneficiary),
        !mainnet_ok ==> next_reward_action(london, collector, 1, mainnet_ok) is None,
        (next_reward_action(london, collector, 1, mainnet_ok) == Some(RewardAction::MintBasefee { collector }))
            <==> (london && mainnet_ok),
        !(london && mainnet_ok) ==> next_reward_action(london, collector, 1, mainnet_ok) is None,
        next_reward_action(london, collector, 2, mint_ok) is None,
{
}

/// The EVM configuration of the Gnosis node: the mainnet EVM with the
/// beneficiary reward replaced by the one above, minting to this collector.
#[derive(Clone, Copy, Debug)]
pub struct GnosisEvmConfig {
    pub collector_address: Address,
}

} // verus!
