use cfxcore::difficulty::ProofOfWorkConfig;
use cfxcore::hash::H256;
use cfxcore::parameters::{
    DIFFICULTY_ADJUSTMENT_EPOCH_PERIOD, DIFFICULTY_ADJUSTMENT_FACTOR, INITIAL_DIFFICULTY,
    TARGET_AVERAGE_BLOCK_GENERATION_PERIOD,
};
use cfxcore::uint::U256;

fn config(initial_difficulty: u64, block_generation_period: u64) -> ProofOfWorkConfig {
    ProofOfWorkConfig {
        test_mode: false,
        use_stratum: false,
        initial_difficulty,
        block_generation_period,
        difficulty_adjustment_epoch_period: 20,
        stratum_listen_addr: String::from("127.0.0.1"),
        stratum_port: 32525,
        stratum_secret: None,
    }
}

fn u(value: u64) -> U256 {
    U256::from_u64(value)
}

#[test]
fn test_mode_config_uses_fixed_periods() {
    let c = ProofOfWorkConfig::new(true, true, Some(9), String::from("0.0.0.0"), 7, None);
    assert!(c.test_mode);
    assert!(c.use_stratum);
    assert_eq!(c.initial_difficulty, 9);
    assert_eq!(c.block_generation_period, 1000000);
    assert_eq!(c.difficulty_adjustment_epoch_period, 20);
    assert_eq!(c.stratum_listen_addr, "0.0.0.0");
    assert_eq!(c.stratum_port, 7);
    assert_eq!(c.stratum_secret, None);
    let d = ProofOfWorkConfig::new(true, false, None, String::new(), 0, Some(H256([3u8; 32])));
    assert_eq!(d.initial_difficulty, 4);
    assert_eq!(d.stratum_secret, Some(H256([3u8; 32])));
}

#[test]
fn network_config_ignores_the_given_difficulty() {
    let c = ProofOfWorkConfig::new(false, false, Some(9), String::from("host"), 1, None);
    assert!(!c.test_mode);
    assert_eq!(c.initial_difficulty, INITIAL_DIFFICULTY);
    assert_eq!(c.block_generation_period, TARGET_AVERAGE_BLOCK_GENERATION_PERIOD);
    assert_eq!(c.difficulty_adjustment_epoch_period, DIFFICULTY_ADJUSTMENT_EPOCH_PERIOD);
    assert_eq!(c.stratum_listen_addr, "host");
}

#[test]
fn steady_rate_keeps_the_difficulty() {
    let c = config(4, 1_000_000);
    assert_eq!(c.target_difficulty(21, 20, &u(1000)), u(1000));
}

#[test]
fn doubled_rate_doubles_the_difficulty() {
    let c = config(4, 1_000_000);
    assert_eq!(c.target_difficulty(21, 10, &u(1000)), u(2000));
}

#[test]
fn doubled_rate_is_clamped_to_half_as_much_again() {
    let c = config(4, 1_000_000);
    let target = c.target_difficulty(21, 10, &u(1000));
    let (lower, upper) = c.get_adjustment_bound(u(1000));
    assert_eq!(lower, u(500));
    assert_eq!(upper, u(1500));
    assert!(upper.lt(&target));
}

#[test]
fn estimate_is_rounded_down() {
    let c = config(4, 1_000_000);
    // 1000 * 1_000_000 * 6 / (7 * 1_000_000) = 857.14..
    assert_eq!(c.target_difficulty(7, 7, &u(1000)), u(857));
    // Half-second blocks: 1000 * 500_000 * 9 / (3 * 1_000_000) = 1500.
    assert_eq!(config(4, 500_000).target_difficulty(10, 3, &u(1000)), u(1500));
}

#[test]
fn degenerate_samples_give_the_initial_difficulty() {
    let c = config(77, 1_000_000);
    for cur in [u(1), u(1000), U256::max_value()].iter() {
        for timespan in [0u64, 1, 20, u64::MAX].iter() {
            assert_eq!(c.target_difficulty(1, *timespan, cur), u(77));
            assert_eq!(c.target_difficulty(0, *timespan, cur), u(77));
        }
        for count in [0u64, 1, 2, 21, u64::MAX].iter() {
            assert_eq!(c.target_difficulty(*count, 0, cur), u(77));
        }
    }
}

#[test]
fn test_mode_gives_the_initial_difficulty() {
    let c = ProofOfWorkConfig::new(true, false, Some(5), String::new(), 0, None);
    assert_eq!(c.target_difficulty(21, 10, &u(1000)), u(5));
}

#[test]
fn estimate_of_zero_becomes_one() {
    let c = config(4, 1);
    assert_eq!(c.target_difficulty(2, 1, &u(1)), u(1));
    assert_eq!(c.target_difficulty(2, u64::MAX, &u(1000)), u(1));
}

#[test]
fn estimate_above_the_range_becomes_the_largest_difficulty() {
    let c = config(4, u64::MAX);
    assert_eq!(c.target_difficulty(u64::MAX, 1, &U256::max_value()), U256::max_value());
    // (2^256 - 1) * 2_000_000 * 1 / (1 * 1_000_000) is about 2^257.
    let d = config(4, 2_000_000);
    assert_eq!(d.target_difficulty(2, 1, &U256::max_value()), U256::max_value());
}

#[test]
fn estimate_at_the_top_of_the_range_is_kept() {
    // (2^256 - 1) * 1_000_000 * 1 / (1 * 1_000_000) is the current difficulty.
    let c = config(4, 1_000_000);
    assert_eq!(c.target_difficulty(2, 1, &U256::max_value()), U256::max_value());
    let below = U256 { w3: u64::MAX, w2: u64::MAX, w1: u64::MAX, w0: u64::MAX - 1 };
    assert_eq!(c.target_difficulty(2, 1, &below), below);
}

#[test]
fn wide_product_does_not_overflow() {
    // 2^255 * 2^63 * 2 / (2^63 * 1_000_000), through a 384-bit product.
    let c = config(4, 1 << 63);
    let cur = U256 { w3: 1 << 63, w2: 0, w1: 0, w0: 0 };
    let expected = cfx_types::U512::from(cfx_types::U256([0, 0, 0, 1 << 63]))
        * cfx_types::U512::from(1u64 << 63)
        * cfx_types::U512::from(2u64)
        / (cfx_types::U512::from(1u64 << 63) * cfx_types::U512::from(1000000u64));
    let got = c.target_difficulty(3, 1 << 63, &cur);
    assert_eq!(
        cfx_types::U512::from(cfx_types::U256([got.w0, got.w1, got.w2, got.w3])),
        expected
    );
}

#[test]
fn adjustment_bound_is_one_part_in_the_factor() {
    assert_eq!(DIFFICULTY_ADJUSTMENT_FACTOR, 2);
    let c = config(4, 1_000_000);
    assert_eq!(c.get_adjustment_bound(u(1000)), (u(500), u(1500)));
    assert_eq!(c.get_adjustment_bound(u(1001)), (u(501), u(1501)));
    assert_eq!(c.get_adjustment_bound(u(8)), (u(4), u(12)));
}

#[test]
fn adjustment_bound_is_floored_at_the_initial_difficulty() {
    assert_eq!(config(600, 1).get_adjustment_bound(u(1000)), (u(600), u(1500)));
    assert_eq!(config(1500, 1).get_adjustment_bound(u(1000)), (u(1500), u(1500)));
    assert_eq!(config(2000, 1).get_adjustment_bound(u(1000)), (u(2000), u(2000)));
    assert_eq!(config(4, 1).get_adjustment_bound(u(0)), (u(4), u(4)));
    assert_eq!(config(4, 1).get_adjustment_bound(u(1)), (u(4), u(4)));
}

#[test]
fn checked_bound_refuses_what_does_not_fit() {
    let c = config(4, 1);
    assert_eq!(c.checked_adjustment_bound(u(1000)), Some((u(500), u(1500))));
    assert_eq!(c.checked_adjustment_bound(U256::max_value()), None);
    // The largest difficulty whose bound fits: 2 * (2^256 - 1) / 3.
    let third = 0x5555555555555555u64;
    let fits = U256 { w3: 2 * third, w2: 2 * third, w1: 2 * third, w0: 2 * third };
    let bound = c.checked_adjustment_bound(fits);
    assert_eq!(
        bound,
        Some((U256 { w3: third, w2: third, w1: third, w0: third }, U256::max_value()))
    );
    let above = U256 { w0: 2 * third + 1, ..fits };
    assert_eq!(c.checked_adjustment_bound(above), None);
}
