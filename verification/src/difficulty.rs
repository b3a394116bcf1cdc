//! The difficulty adjustment policy: what the next epoch's difficulty should
//! be, given how many blocks the last one held and how long it took.

use vstd::prelude::*;
use crate::hash::H256;
use crate::parameters::{
    DIFFICULTY_ADJUSTMENT_EPOCH_PERIOD, DIFFICULTY_ADJUSTMENT_FACTOR, INITIAL_DIFFICULTY,
    TARGET_AVERAGE_BLOCK_GENERATION_PERIOD,
};
use crate::uint::{
    U256, U512, pow2_256, pow2_512, u256_add, u256_div_mod, u256_max, u256_sub, u512_div,
    u512_mul,
};

verus! {

/// The settings of the proof of work, fixed when the node starts.
#[derive(Debug, Clone)]
pub struct ProofOfWorkConfig {
    pub test_mode: bool,
    pub use_stratum: bool,
    pub initial_difficulty: u64,
    pub block_generation_period: u64,
    pub difficulty_adjustment_epoch_period: u64,
    pub stratum_listen_addr: String,
    pub stratum_port: u16,
    pub stratum_secret: Option<H256>,
}

/// The difficulty at which `block_count` blocks in `timespan` seconds would
/// have met the target period, before any clamping. One block fewer is
/// counted because `timespan` covers the intervals between the blocks.
pub open spec fn estimated_difficulty(
    cur_difficulty: nat,
    block_generation_period: nat,
    block_count: nat,
    timespan: nat,
) -> nat {
    cur_difficulty * block_generation_period * ((block_count - 1) as nat) / (timespan * 1000000)
}

/// `value` brought into the representable difficulties: at least one, at
/// most 2^256 - 1.
pub open spec fn saturated(value: nat) -> nat {
    if value == 0 {
        1
    } else if value > u256_max() {
        u256_max()
    } else {
        value
    }
}

/// `value` brought into `[lower, upper]`; the upper limit is applied first.
pub open spec fn clamped(value: nat, lower: nat, upper: nat) -> nat {
    let capped = if value > upper {
        upper
    } else {
        value
    };
    if capped < lower {
        lower
    } else {
        capped
    }
}

impl ProofOfWorkConfig {
    /// The difficulty that the policy asks for.
    pub open spec fn target_of(&self, block_count: u64, timespan: u64, cur_difficulty: nat) -> nat {
        if timespan == 0 || block_count <= 1 || self.test_mode {
            self.initial_difficulty as nat
        } else {
            saturated(
                estimated_difficulty(
                    cur_difficulty,
                    self.block_generation_period as nat,
                    block_count as nat,
                    timespan as nat,
                ),
            )
        }
    }

    /// The largest step that one adjustment may take from `diff`.
    pub open spec fn adjustment_of(diff: nat) -> nat {
        diff / (DIFFICULTY_ADJUSTMENT_FACTOR as nat)
    }

    /// The least difficulty that may follow `diff`.
    pub open spec fn lower_bound(&self, diff: nat) -> nat {
        let stepped = (diff - Self::adjustment_of(diff)) as nat;
        if stepped < self.initial_difficulty {
            self.initial_difficulty as nat
        } else {
            stepped
        }
    }

    /// The greatest difficulty that may follow `diff`.
    pub open spec fn upper_bound(&self, diff: nat) -> nat {
        let stepped = diff + Self::adjustment_of(diff);
        if stepped < self.lower_bound(diff) {
            self.lower_bound(diff)
        } else {
            stepped
        }
    }

    pub fn new(
        test_mode: bool,
        use_stratum: bool,
        initial_difficulty: Option<u64>,
        stratum_listen_addr: String,
        stratum_port: u16,
        stratum_secret: Option<H256>,
    ) -> (r: Self)
        ensures
            r.test_mode == test_mode,
            r.use_stratum == use_stratum,
            r.stratum_listen_addr == stratum_listen_addr,
            r.stratum_port == stratum_port,
            r.stratum_secret == stratum_secret,
            test_mode ==> r.initial_difficulty == (match initial_difficulty {
                Some(d) => d,
                None => 4,
            }),
            test_mode ==> r.block_generation_period == 1000000,
            test_mode ==> r.difficulty_adjustment_epoch_period == 20,
            !test_mode ==> r.initial_difficulty == INITIAL_DIFFICULTY,
            !test_mode ==> r.block_generation_period == TARGET_AVERAGE_BLOCK_GENERATION_PERIOD,
            !test_mode ==> r.difficulty_adjustment_epoch_period
                == DIFFICULTY_ADJUSTMENT_EPOCH_PERIOD,
    {
        if test_mode {
            ProofOfWorkConfig {
                test_mode,
                use_stratum,
                initial_difficulty: match initial_difficulty {
                    Some(d) => d,
                    None => 4,
                },
                block_generation_period: 1000000,
                difficulty_adjustment_epoch_period: 20,
                stratum_listen_addr,
                stratum_port,
                stratum_secret,
            }
        } else {
            ProofOfWorkConfig {
                test_mode,
                use_stratum,
                initial_difficulty: INITIAL_DIFFICULTY,
                block_generation_period: TARGET_AVERAGE_BLOCK_GENERATION_PERIOD,
                difficulty_adjustment_epoch_period: DIFFICULTY_ADJUSTMENT_EPOCH_PERIOD,
                stratum_listen_addr,
                stratum_port,
                stratum_secret,
            }
        }
    }

    pub fn target_difficulty(&self, block_count: u64, timespan: u64, cur_difficulty: &U256) -> (r:
        U256)
        ensures
            r@ == self.target_of(block_count, timespan, cur_difficulty@),
    {
        if timespan == 0 || block_count <= 1 || self.test_mode {
            return U256::from_u64(self.initial_difficulty);
        }
        let ghost cur = cur_difficulty@ as int;
        let ghost period = self.block_generation_period as int;
        let ghost intervals = (block_count - 1) as int;
        proof {
            cur_difficulty.lemma_bounded();
            assert(cur * period < pow2_256() * 0x1_0000_0000_0000_0000) by (nonlinear_arith)
                requires
                    0 <= cur < pow2_256(),
                    0 <= period < 0x1_0000_0000_0000_0000,
            ;
            assert(cur * period * intervals < pow2_256() * 0x1_0000_0000_0000_0000
                * 0x1_0000_0000_0000_0000) by (nonlinear_arith)
                requires
                    0 <= cur * period < pow2_256() * 0x1_0000_0000_0000_0000,
                    0 <= intervals < 0x1_0000_0000_0000_0000,
            ;
            assert(0 < timespan * 1000000 < pow2_512()) by (nonlinear_arith)
                requires
                    0 < timespan < 0x1_0000_0000_0000_0000,
                    pow2_512() > 0x1_0000_0000_0000_0000_0000_0000_0000_0000,
            ;
        }
        let scaled = u512_mul(
            &U512::from_u256(cur_difficulty),
            &U512::from_u64(self.block_generation_period),
        );
        // - 1 for unbiased estimation, like stdvar
        let numerator = u512_mul(&scaled, &U512::from_u64(block_count - 1));
        let denominator = u512_mul(&U512::from_u64(timespan), &U512::from_u64(1000000));
        let target = u512_div(&numerator, &denominator);
        if target.is_zero() {
            return U256::one();
        }
        match target.to_u256() {
            Some(value) => value,
            None => U256::max_value(),
        }
    }

    pub fn get_adjustment_bound(&self, diff: U256) -> (r: (U256, U256))
        requires
            diff@ + Self::adjustment_of(diff@) <= u256_max(),
        ensures
            r.0@ == self.lower_bound(diff@),
            r.1@ == self.upper_bound(diff@),
    {
        let factor = U256::from_u64(DIFFICULTY_ADJUSTMENT_FACTOR as u64);
        let (adjustment, _) = u256_div_mod(&diff, &factor);
        let mut min_diff = u256_sub(&diff, &adjustment);
        let mut max_diff = u256_add(&diff, &adjustment);
        let initial_diff = U256::from_u64(self.initial_difficulty);

        if min_diff.lt(&initial_diff) {
            min_diff = initial_diff;
        }
        if max_diff.lt(&min_diff) {
            max_diff = min_diff;
        }
        (min_diff, max_diff)
    }
}

impl ProofOfWorkConfig {
    /// The adjustment bound of `diff`, where its upper end fits 256 bits.
    pub fn checked_adjustment_bound(&self, diff: U256) -> (r: Option<(U256, U256)>)
        ensures
            r.is_some() <==> diff@ + Self::adjustment_of(diff@) <= u256_max(),
            match r {
                Some(bound) => bound.0@ == self.lower_bound(diff@) && bound.1@ == self.upper_bound(
                    diff@,
                ),
                None => true,
            },
    {
        let factor = U256::from_u64(DIFFICULTY_ADJUSTMENT_FACTOR as u64);
        let (adjustment, _) = u256_div_mod(&diff, &factor);
        proof {
            diff.lemma_bounded();
        }
        let headroom = u256_sub(&U256::max_value(), &adjustment);
        if headroom.lt(&diff) {
            None
        } else {
            Some(self.get_adjustment_bound(diff))
        }
    }
}

/// A degenerate sample, of at most one block or of no time at all, yields
/// the initial difficulty, whatever the current difficulty.
pub proof fn lemma_degenerate_sample(
    config: ProofOfWorkConfig,
    block_count: u64,
    timespan: u64,
    cur_difficulty: nat,
)
    requires
        block_count <= 1 || timespan == 0,
    ensures
        config.target_of(block_count, timespan, cur_difficulty) == config.initial_difficulty,
{
}

/// The adjustment bound is an interval, and clamping into it lands inside.
pub proof fn lemma_clamped_within_bound(config: ProofOfWorkConfig, value: nat, diff: nat)
    ensures
        config.lower_bound(diff) <= config.upper_bound(diff),
        config.initial_difficulty <= config.lower_bound(diff),
        config.lower_bound(diff) <= clamped(
            value,
            config.lower_bound(diff),
            config.upper_bound(diff),
        ) <= config.upper_bound(diff),
{
}

} // verus!
