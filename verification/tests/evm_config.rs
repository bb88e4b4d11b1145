use reth_gnosis::evm_config::{
    basefee_mint_amount, mint_basefee_to_collector_address, reward_beneficiary, Gas,
    GnosisEvmConfig, RewardAction,
};
use reth_gnosis::primitives::Address;
use reth_gnosis::u256::U256;

const COLLECTOR: Address = Address([0x1c; 20]);

#[test]
fn gas_accounting() {
    let gas = Gas::from_parts(100_000, 40_000, 10_000);
    assert_eq!(gas.limit(), 100_000);
    assert_eq!(gas.remaining(), 40_000);
    assert_eq!(gas.refunded(), 10_000);
    assert_eq!(gas.spent(), 60_000);
    assert_eq!(gas.used(), 50_000);
}

#[test]
fn mint_amount_is_basefee_times_gas_used() {
    // a plain transfer at 7 gwei base fee
    let gas = Gas::from_parts(21_000, 0, 0);
    let amount = basefee_mint_amount(U256::from_u64(7_000_000_000), &gas);
    assert_eq!(amount.into_limbs(), [147_000_000_000_000, 0, 0, 0]);
}

#[test]
fn mint_amount_leaves_out_refunded_gas() {
    let gas = Gas::from_parts(100_000, 40_000, 10_000);
    let amount = basefee_mint_amount(U256::from_u64(3), &gas);
    assert_eq!(amount.into_limbs(), [150_000, 0, 0, 0]);
}

#[test]
fn mint_adds_to_collector_balance() {
    let gas = Gas::from_parts(21_000, 0, 0);
    let balance = U256::from_u64(1_000);
    let after = mint_basefee_to_collector_address(balance, U256::from_u64(10), &gas);
    assert_eq!(after.into_limbs(), [211_000, 0, 0, 0]);
}

#[test]
fn mint_saturates_at_max() {
    let gas = Gas::from_parts(21_000, 0, 0);
    let balance = U256::from_limbs([u64::MAX; 4]);
    let after = mint_basefee_to_collector_address(balance, U256::from_u64(1), &gas);
    assert_eq!(after.into_limbs(), [u64::MAX; 4]);
}

#[test]
fn mint_of_zero_basefee_keeps_balance() {
    let gas = Gas::from_parts(30_000_000, 1_000, 0);
    let balance = U256::from_u64(5);
    let after = mint_basefee_to_collector_address(balance, U256::zero(), &gas);
    assert_eq!(after.into_limbs(), [5, 0, 0, 0]);
}

#[test]
fn mint_amount_wraps_in_word_arithmetic() {
    // 2^255 * 2 wraps to zero, so nothing is minted
    let gas = Gas::from_parts(2, 0, 0);
    let balance = U256::from_u64(9);
    let after = mint_basefee_to_collector_address(balance, U256::from_limbs([0, 0, 0, 1 << 63]), &gas);
    assert_eq!(after.into_limbs(), [9, 0, 0, 0]);
}

#[test]
fn reward_before_london_pays_beneficiary_only() {
    assert_eq!(reward_beneficiary(false, COLLECTOR, 0, true), Some(RewardAction::MainnetBeneficiary));
    assert_eq!(reward_beneficiary(false, COLLECTOR, 1, true), None);
}

#[test]
fn reward_from_london_mints_basefee_after_beneficiary() {
    let config = GnosisEvmConfig { collector_address: COLLECTOR };
    let c = config.collector_address;
    assert_eq!(reward_beneficiary(true, c, 0, true), Some(RewardAction::MainnetBeneficiary));
    assert_eq!(reward_beneficiary(true, c, 1, true), Some(RewardAction::MintBasefee { collector: COLLECTOR }));
    assert_eq!(reward_beneficiary(true, c, 2, true), None);
    assert_eq!(reward_beneficiary(true, c, 2, false), None);
}

#[test]
fn failed_mainnet_reward_ends_before_mint() {
    assert_eq!(reward_beneficiary(true, COLLECTOR, 1, false), None);
    assert_eq!(reward_beneficiary(false, COLLECTOR, 1, false), None);
}
