use cfxcore::pow::{
    boundary_to_difficulty, compute_inv_x_times_2_pow_256_floor, difficulty_to_boundary,
    nonce_to_lower_bound, pow_hash_to_quality, ProofOfWorkProblem,
};
use cfxcore::hash::H256;
use cfxcore::uint::U256;

fn words(w3: u64, w2: u64, w1: u64, w0: u64) -> U256 {
    U256 { w3, w2, w1, w0 }
}

fn outside(x: &U256) -> cfx_types::U256 {
    cfx_types::U256([x.w0, x.w1, x.w2, x.w3])
}

#[test]
fn difficulty_one_has_no_boundary() {
    assert_eq!(difficulty_to_boundary(&U256::one()), U256::max_value());
    assert_eq!(ProofOfWorkProblem::no_boundary(), U256::max_value());
}

#[test]
fn boundary_one_is_the_largest_difficulty() {
    assert_eq!(boundary_to_difficulty(&U256::one()), U256::max_value());
}

#[test]
fn boundary_of_a_power_of_two_is_exact() {
    assert_eq!(difficulty_to_boundary(&U256::from_u64(2)), words(0x8000000000000000, 0, 0, 0));
    assert_eq!(difficulty_to_boundary(&U256::from_u64(4)), words(0x4000000000000000, 0, 0, 0));
    assert_eq!(compute_inv_x_times_2_pow_256_floor(&U256::from_u64(2)), words(1 << 63, 0, 0, 0));
    // 2^255 goes into 2^256 twice.
    assert_eq!(difficulty_to_boundary(&words(1 << 63, 0, 0, 0)), U256::from_u64(2));
}

#[test]
fn boundary_is_rounded_down() {
    let third = 0x5555555555555555u64;
    assert_eq!(difficulty_to_boundary(&U256::from_u64(3)), words(third, third, third, third));
    assert_eq!(
        difficulty_to_boundary(&U256::from_u64(1000)),
        words(0x004189374bc6a7ef, 0x9db22d0e56041893, 0x74bc6a7ef9db22d0, 0xe5604189374bc6a7)
    );
    assert_eq!(
        difficulty_to_boundary(&words(0, 0, 1, 1)),
        words(0, 0xffffffffffffffff, 0, 0xffffffffffffffff)
    );
}

#[test]
fn boundary_agrees_with_wide_division() {
    let samples = [
        words(0, 0, 0, 2),
        words(0, 0, 0, 7),
        words(0, 0, 0, u64::MAX),
        words(0, 0, 5, 9),
        words(0, 3, 0, 1),
        words(1, 0, 0, 0),
        words(u64::MAX, u64::MAX, u64::MAX, u64::MAX),
    ];
    for d in samples.iter() {
        let two_pow_256 = cfx_types::U512::from(cfx_types::U256::MAX) + cfx_types::U512::one();
        let expected = two_pow_256 / cfx_types::U512::from(outside(d));
        assert_eq!(cfx_types::U512::from(outside(&difficulty_to_boundary(d))), expected);
    }
}

#[test]
fn round_trip_recovers_small_difficulties() {
    let samples = [
        U256::from_u64(2),
        U256::from_u64(3),
        U256::from_u64(1000),
        U256::from_u64(20_000_000_000),
        words(0, 0, 1, 1),
        words(0, 0, u64::MAX, u64::MAX),
    ];
    for d in samples.iter() {
        assert_eq!(boundary_to_difficulty(&difficulty_to_boundary(d)), *d);
    }
}

#[test]
fn round_trip_saturates_at_the_endpoints() {
    let max = U256::max_value();
    assert_eq!(difficulty_to_boundary(&max), U256::one());
    assert_eq!(boundary_to_difficulty(&difficulty_to_boundary(&max)), max);
    // One below the largest difficulty shares its boundary, and comes back
    // as the largest.
    let below = words(u64::MAX, u64::MAX, u64::MAX, u64::MAX - 1);
    assert_eq!(difficulty_to_boundary(&below), U256::one());
    assert_eq!(boundary_to_difficulty(&difficulty_to_boundary(&below)), max);
}

#[test]
fn round_trip_loses_large_difficulties() {
    // 2^200 + 1: the boundary is 2^56 - 1, whose difficulty is larger.
    let d = words(0x100, 0, 0, 1);
    let boundary = difficulty_to_boundary(&d);
    assert_eq!(boundary, U256::from_u64(0x00ffffffffffffff));
    assert_ne!(boundary_to_difficulty(&boundary), d);
}

#[test]
fn lower_bound_keeps_the_top_half_without_its_highest_bit() {
    let nonce = words(0x8123456789abcdef, 0x0fedcba987654321, 0x1111111111111111, 0x2222222222222222);
    assert_eq!(
        nonce_to_lower_bound(&nonce),
        words(0x0123456789abcdef, 0x0fedcba987654321, 0, 0)
    );
}

#[test]
fn lower_bound_edges() {
    assert_eq!(nonce_to_lower_bound(&U256::zero()), U256::zero());
    assert_eq!(nonce_to_lower_bound(&words(0, 0, u64::MAX, u64::MAX)), U256::zero());
    assert_eq!(nonce_to_lower_bound(&words(1 << 63, 0, 0, 0)), U256::zero());
    assert_eq!(
        nonce_to_lower_bound(&U256::max_value()),
        words(0x7fffffffffffffff, u64::MAX, 0, 0)
    );
    assert_eq!(nonce_to_lower_bound(&words(0, 1, 0, 0)), words(0, 1, 0, 0));
}

#[test]
fn lower_bound_has_clear_top_bit_and_low_half() {
    let nonces = [
        U256::max_value(),
        words(0xdeadbeefdeadbeef, 0x0123456789abcdef, 0xffffffffffffffff, 0x1),
        words(0x8000000000000001, 0x8000000000000000, 0x7, 0x9),
    ];
    for nonce in nonces.iter() {
        let bound = nonce_to_lower_bound(nonce);
        assert_eq!(bound.w0, 0);
        assert_eq!(bound.w1, 0);
        assert_eq!(bound.w3 >> 63, 0);
        assert_eq!(bound.w2, nonce.w2);
        assert_eq!(bound.w3, nonce.w3 & 0x7fffffffffffffff);
    }
}

#[test]
fn largest_boundary_admits_every_hash() {
    let hashes = [H256([0u8; 32]), H256([0xffu8; 32]), H256([0x5au8; 32])];
    let nonces = [U256::zero(), U256::max_value(), words(0x7fff000000000000, 0, 0, 5)];
    for hash in hashes.iter() {
        for nonce in nonces.iter() {
            assert!(ProofOfWorkProblem::validate_hash_against_boundary(
                hash,
                nonce,
                &U256::max_value()
            ));
        }
    }
}

#[test]
fn hash_is_measured_from_the_lower_bound() {
    // Lower bound 2^128; the hash lies 5 above it.
    let nonce = words(0, 1, 0, 0);
    let mut bytes = [0u8; 32];
    bytes[15] = 1;
    bytes[31] = 5;
    let hash = H256(bytes);
    assert!(ProofOfWorkProblem::validate_hash_against_boundary(&hash, &nonce, &U256::from_u64(6)));
    assert!(!ProofOfWorkProblem::validate_hash_against_boundary(&hash, &nonce, &U256::from_u64(5)));
    assert!(!ProofOfWorkProblem::validate_hash_against_boundary(&hash, &nonce, &U256::one()));
}

#[test]
fn hash_below_the_lower_bound_wraps_around() {
    // Lower bound 2^128, hash 1: the distance is 2^256 - 2^128 + 1.
    let nonce = words(0, 1, 0, 0);
    let mut bytes = [0u8; 32];
    bytes[31] = 1;
    let hash = H256(bytes);
    let distance = words(u64::MAX, u64::MAX, 0, 1);
    let above = words(u64::MAX, u64::MAX, 0, 2);
    assert!(!ProofOfWorkProblem::validate_hash_against_boundary(&hash, &nonce, &distance));
    assert!(ProofOfWorkProblem::validate_hash_against_boundary(&hash, &nonce, &above));
    assert!(!ProofOfWorkProblem::validate_hash_against_boundary(
        &hash,
        &nonce,
        &words(1 << 63, 0, 0, 0)
    ));
}

#[test]
fn quality_is_the_difficulty_that_the_hash_meets() {
    let nonce = U256::zero();
    // Distance 0: the tightest boundary, 1, is met.
    assert_eq!(pow_hash_to_quality(&H256([0u8; 32]), &nonce), U256::max_value());
    // Distance 2^256 - 1: nothing but the open boundary is met.
    assert_eq!(pow_hash_to_quality(&H256([0xffu8; 32]), &nonce), U256::one());
    // Distance 1: boundary 2, difficulty 2^255.
    let mut bytes = [0u8; 32];
    bytes[31] = 1;
    assert_eq!(pow_hash_to_quality(&H256(bytes), &nonce), words(1 << 63, 0, 0, 0));
    // Distance 2^255 - 1: boundary 2^255, difficulty 2.
    let mut bytes = [0xffu8; 32];
    bytes[0] = 0x7f;
    assert_eq!(pow_hash_to_quality(&H256(bytes), &nonce), U256::from_u64(2));
}

#[test]
fn quality_is_measured_from_the_lower_bound() {
    // Lower bound 2^128 and hash 2^128 + 1: distance 1 again.
    let nonce = words(0, 1, 7, 9);
    let mut bytes = [0u8; 32];
    bytes[15] = 1;
    bytes[31] = 1;
    assert_eq!(pow_hash_to_quality(&H256(bytes), &nonce), words(1 << 63, 0, 0, 0));
}

#[test]
fn problem_derives_its_boundary() {
    let hash = H256([7u8; 32]);
    let problem = ProofOfWorkProblem::new(hash, U256::from_u64(4));
    assert_eq!(problem.block_hash, hash);
    assert_eq!(problem.difficulty, U256::from_u64(4));
    assert_eq!(problem.boundary, words(0x4000000000000000, 0, 0, 0));
    let open = ProofOfWorkProblem::new(hash, U256::one());
    assert_eq!(open.boundary, U256::max_value());
}
