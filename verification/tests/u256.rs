use reth_gnosis::u256::U256;

#[test]
fn from_u64_sets_low_limb() {
    assert_eq!(U256::from_u64(42).into_limbs(), [42, 0, 0, 0]);
    assert_eq!(U256::zero().into_limbs(), [0, 0, 0, 0]);
}

#[test]
fn limbs_round_trip() {
    let limbs = [1, 2, 3, 4];
    assert_eq!(U256::from_limbs(limbs).into_limbs(), limbs);
}

#[test]
fn saturating_add_adds_with_carry() {
    let a = U256::from_limbs([u64::MAX, 0, 0, 0]);
    let b = U256::from_u64(1);
    assert_eq!(a.saturating_add(b).into_limbs(), [0, 1, 0, 0]);
    assert_eq!(U256::from_u64(1).saturating_add(U256::from_u64(2)).into_limbs(), [3, 0, 0, 0]);
}

#[test]
fn saturating_add_caps_at_max() {
    let max = U256::from_limbs([u64::MAX; 4]);
    assert_eq!(max.saturating_add(U256::from_u64(1)).into_limbs(), [u64::MAX; 4]);
    assert_eq!(max.saturating_add(max).into_limbs(), [u64::MAX; 4]);
    assert_eq!(max.saturating_add(U256::zero()).into_limbs(), [u64::MAX; 4]);
}

#[test]
fn wrapping_mul_multiplies() {
    let a = U256::from_u64(7_000_000_000);
    let b = U256::from_u64(21_000);
    assert_eq!(a.wrapping_mul(b).into_limbs(), [147_000_000_000_000, 0, 0, 0]);
    let big = U256::from_limbs([0, 1, 0, 0]);
    assert_eq!(big.wrapping_mul(big).into_limbs(), [0, 0, 1, 0]);
}

#[test]
fn wrapping_mul_wraps_modulo_2_256() {
    let half = U256::from_limbs([0, 0, 0, 1 << 63]);
    assert_eq!(half.wrapping_mul(U256::from_u64(2)).into_limbs(), [0, 0, 0, 0]);
    let max = U256::from_limbs([u64::MAX; 4]);
    // (2^256 - 1)^2 = 1 (mod 2^256)
    assert_eq!(max.wrapping_mul(max).into_limbs(), [1, 0, 0, 0]);
}
