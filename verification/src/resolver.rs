//! Resolution of an epoch's target difficulty: the backward walk over one
//! epoch of headers, the clamp into the adjustment bound, and the cache of
//! what was resolved.

use vstd::prelude::*;
use vstd::pervasive::unreached;
use crate::difficulty::{ProofOfWorkConfig, clamped};
use crate::digest_map::DigestMap;
use crate::hash::H256;
use crate::uint::{U256, u256_max};

verus! {

/// What difficulty resolution reads of a block header.
#[derive(Debug, Copy, Clone, PartialEq)]
pub struct BlockHeader {
    pub parent_hash: H256,
    pub height: u64,
    pub timestamp: u64,
    pub difficulty: U256,
}

/// A header as the store keeps it, with the number of blocks in the epoch
/// that the block anchors.
#[derive(Debug, Copy, Clone, PartialEq)]
pub struct StoredBlock {
    pub header: BlockHeader,
    pub blocks_in_epoch: usize,
}

/// The headers that difficulty resolution may consult, by block hash.
pub struct BlockStore {
    blocks: DigestMap<StoredBlock>,
}

impl View for BlockStore {
    type V = Map<Seq<u8>, StoredBlock>;

    closed spec fn view(&self) -> Map<Seq<u8>, StoredBlock> {
        self.blocks@
    }
}

impl BlockStore {
    /// A store without headers.
    pub fn new() -> (r: Self)
        ensures
            r@ == Map::<Seq<u8>, StoredBlock>::empty(),
    {
        BlockStore { blocks: DigestMap::new() }
    }

    /// Keep `header` under `hash`, with the size of the epoch that the block
    /// anchors.
    pub fn insert(&mut self, hash: H256, header: BlockHeader, blocks_in_epoch: usize)
        ensures
            final(self)@ == old(self)@.insert(hash@, StoredBlock { header, blocks_in_epoch }),
    {
        self.blocks.insert(hash, StoredBlock { header, blocks_in_epoch });
    }

    /// The header stored under `hash`.
    pub fn header_by_hash(&self, hash: &H256) -> (r: Option<BlockHeader>)
        ensures
            r == (if self@.contains_key(hash@) {
                Some(self@[hash@].header)
            } else {
                None
            }),
    {
        match self.blocks.get(hash) {
            Some(block) => Some(block.header),
            None => None,
        }
    }

    /// The number of blocks in the epoch anchored at `hash`; zero for a hash
    /// that the store does not hold.
    pub fn blocks_in_epoch_view(&self, hash: &H256) -> (r: usize)
        ensures
            r == (if self@.contains_key(hash@) {
                self@[hash@].blocks_in_epoch
            } else {
                0
            }),
    {
        match self.blocks.get(hash) {
            Some(block) => block.blocks_in_epoch,
            None => 0,
        }
    }
}

/// Where the backward walk stands: the block it has reached, the blocks
/// counted so far, the earliest time seen, and whether every step so far
/// found its header, kept the count in 64 bits and kept the earliest time
/// at or before the starting block's.
pub struct Walk {
    pub cur: Seq<u8>,
    pub block_count: nat,
    pub min_time: u64,
    pub sound: bool,
}

/// The walk after `steps` steps back from `start`. Each step counts the
/// blocks in the epoch of the block it leaves and moves to that block's
/// parent; a parent with a zero timestamp leaves the earliest time as it is.
pub open spec fn walk(store: Map<Seq<u8>, StoredBlock>, start: Seq<u8>, steps: nat) -> Walk
    decreases steps,
{
    if steps == 0 {
        Walk { cur: start, block_count: 0, min_time: 0, sound: store.contains_key(start) }
    } else {
        let prev = walk(store, start, (steps - 1) as nat);
        let parent = store[prev.cur].header.parent_hash@;
        let parent_time = store[parent].header.timestamp;
        let min_time = if parent_time != 0 {
            parent_time
        } else {
            prev.min_time
        };
        let block_count = prev.block_count + store[prev.cur].blocks_in_epoch as nat;
        Walk {
            cur: parent,
            block_count,
            min_time,
            sound: prev.sound && block_count <= u64::MAX && store.contains_key(parent)
                && store[start].header.timestamp >= min_time,
        }
    }
}

/// A walk that is sound after some steps was sound after fewer.
pub proof fn lemma_walk_sound_before(
    store: Map<Seq<u8>, StoredBlock>,
    start: Seq<u8>,
    fewer: nat,
    steps: nat,
)
    requires
        fewer <= steps,
        walk(store, start, steps).sound,
    ensures
        walk(store, start, fewer).sound,
    decreases steps,
{
    if fewer < steps {
        lemma_walk_sound_before(store, start, fewer, (steps - 1) as nat);
    }
}

/// Whether the difficulty after the epoch that ends at `hash` can be
/// resolved from `store`: the header is there, at a positive multiple of
/// the epoch period, one epoch of ancestors is there with times at or before
/// its own, and the adjustment bound of its difficulty fits 256 bits.
pub open spec fn resolvable(
    store: Map<Seq<u8>, StoredBlock>,
    config: ProofOfWorkConfig,
    hash: Seq<u8>,
) -> bool {
    &&& store.contains_key(hash)
    &&& config.difficulty_adjustment_epoch_period != 0
    &&& store[hash].header.height != 0
    &&& store[hash].header.height % config.difficulty_adjustment_epoch_period == 0
    &&& walk(store, hash, config.difficulty_adjustment_epoch_period as nat).sound
    &&& store[hash].header.difficulty@ + ProofOfWorkConfig::adjustment_of(
        store[hash].header.difficulty@,
    ) <= u256_max()
}

/// The difficulty after the epoch that ends at `hash`: what the policy asks
/// for, given the blocks and the time that the walk found, brought into the
/// adjustment bound of the epoch's own difficulty.
pub open spec fn resolved_target(
    store: Map<Seq<u8>, StoredBlock>,
    config: ProofOfWorkConfig,
    hash: Seq<u8>,
) -> nat {
    let end = walk(store, hash, config.difficulty_adjustment_epoch_period as nat);
    let head = store[hash].header;
    clamped(
        config.target_of(
            end.block_count as u64,
            (head.timestamp - end.min_time) as u64,
            head.difficulty@,
        ),
        config.lower_bound(head.difficulty@),
        config.upper_bound(head.difficulty@),
    )
}

/// The entries of the cache of target difficulties.
pub struct TargetDifficultyCacheInner {
    cache: DigestMap<U256>,
}

impl View for TargetDifficultyCacheInner {
    type V = Map<Seq<u8>, U256>;

    closed spec fn view(&self) -> Map<Seq<u8>, U256> {
        self.cache@
    }
}

impl TargetDifficultyCacheInner {
    pub fn new() -> (r: Self)
        ensures
            r@ == Map::<Seq<u8>, U256>::empty(),
    {
        TargetDifficultyCacheInner { cache: DigestMap::new() }
    }
}

/// Cache of target difficulties, by the hash of the block at the upper
/// boundary of the period before.
pub struct TargetDifficultyCache {
    inner: TargetDifficultyCacheInner,
}

impl View for TargetDifficultyCache {
    type V = Map<Seq<u8>, U256>;

    closed spec fn view(&self) -> Map<Seq<u8>, U256> {
        self.inner@
    }
}

impl TargetDifficultyCache {
    pub fn new() -> (r: Self)
        ensures
            r@ == Map::<Seq<u8>, U256>::empty(),
    {
        TargetDifficultyCache { inner: TargetDifficultyCacheInner::new() }
    }

    pub fn get(&self, hash: &H256) -> (r: Option<U256>)
        ensures
            r == (if self@.contains_key(hash@) {
                Some(self@[hash@])
            } else {
                None
            }),
    {
        match self.inner.cache.get(hash) {
            Some(diff) => Some(*diff),
            None => None,
        }
    }

    pub fn set(&mut self, hash: H256, difficulty: U256)
        ensures
            final(self)@ == old(self)@.insert(hash@, difficulty),
    {
        self.inner.cache.insert(hash, difficulty);
    }
}

/// This is a data structure to cache the computed target difficulty
/// of a adjustment period. Each element is indexed by the hash of
/// the upper boundary block of the period.
pub struct TargetDifficultyManager {
    cache: TargetDifficultyCache,
}

impl View for TargetDifficultyManager {
    type V = Map<Seq<u8>, U256>;

    closed spec fn view(&self) -> Map<Seq<u8>, U256> {
        self.cache@
    }
}

impl TargetDifficultyManager {
    pub fn new() -> (r: Self)
        ensures
            r@ == Map::<Seq<u8>, U256>::empty(),
    {
        TargetDifficultyManager { cache: TargetDifficultyCache::new() }
    }

    pub fn get(&self, hash: &H256) -> (r: Option<U256>)
        ensures
            r == (if self@.contains_key(hash@) {
                Some(self@[hash@])
            } else {
                None
            }),
    {
        self.cache.get(hash)
    }

    pub fn set(&mut self, hash: H256, difficulty: U256)
        ensures
            final(self)@ == old(self)@.insert(hash@, difficulty),
    {
        self.cache.set(hash, difficulty);
    }
}

/// What one resolution does: a cached difficulty is returned and the cache
/// stays as it is; otherwise the difficulty is resolved from the store and
/// enters the cache.
pub open spec fn resolution(
    store: Map<Seq<u8>, StoredBlock>,
    config: ProofOfWorkConfig,
    hash: Seq<u8>,
    before: Map<Seq<u8>, U256>,
    result: U256,
    after: Map<Seq<u8>, U256>,
) -> bool {
    if before.contains_key(hash) {
        result == before[hash] && after == before
    } else {
        result@ == resolved_target(store, config, hash) && after == before.insert(hash, result)
    }
}

/// Resolve the target difficulty of the period after the one whose upper
/// boundary block is `cur_hash`, from the cache where it is there, else
/// from `data_man`. `None` is returned, and the cache left alone, exactly
/// where the difficulty is neither cached nor resolvable.
pub fn try_target_difficulty(
    data_man: &BlockStore,
    cache: &mut TargetDifficultyManager,
    pow_config: &ProofOfWorkConfig,
    cur_hash: &H256,
) -> (r: Option<U256>)
    ensures
        r.is_some() <==> old(cache)@.contains_key(cur_hash@) || resolvable(
            data_man@,
            *pow_config,
            cur_hash@,
        ),
        match r {
            Some(target_diff) => resolution(
                data_man@,
                *pow_config,
                cur_hash@,
                old(cache)@,
                target_diff,
                final(cache)@,
            ),
            None => final(cache)@ == old(cache)@,
        },
{
    if let Some(target_diff) = cache.get(cur_hash) {
        // The target difficulty of this period is already computed and cached.
        return Some(target_diff);
    }
    let period = pow_config.difficulty_adjustment_epoch_period;
    let mut cur_header = match data_man.header_by_hash(cur_hash) {
        Some(header) => header,
        None => {
            return None;
        },
    };
    let epoch = cur_header.height;
    if epoch == 0 || period == 0 || epoch % period != 0 {
        return None;
    }
    let ghost store = data_man@;
    let ghost start = cur_hash@;
    let mut cur = *cur_hash;
    let cur_difficulty = cur_header.difficulty;
    let mut block_count: u64 = 0;
    let max_time = cur_header.timestamp;
    let mut min_time: u64 = 0;

    // Collect the total block count and the timespan in the current period
    let mut step: u64 = 0;
    while step < period
        invariant
            step <= period,
            store == data_man@,
            store.contains_key(start),
            max_time == store[start].header.timestamp,
            walk(store, start, step as nat).sound,
            walk(store, start, step as nat).cur == cur@,
            walk(store, start, step as nat).block_count == block_count,
            walk(store, start, step as nat).min_time == min_time,
            cur_header == store[cur@].header,
            store.contains_key(cur@),
            *cache == *old(cache),
            !old(cache)@.contains_key(cur_hash@),
            start == cur_hash@,
            period == pow_config.difficulty_adjustment_epoch_period,
        decreases period - step,
    {
        let ghost next = walk(store, start, (step + 1) as nat);
        let in_epoch = data_man.blocks_in_epoch_view(&cur) as u64;
        if in_epoch > u64::MAX - block_count {
            proof {
                if walk(store, start, period as nat).sound {
                    lemma_walk_sound_before(store, start, (step + 1) as nat, period as nat);
                }
            }
            return None;
        }
        block_count = block_count + in_epoch;
        cur = cur_header.parent_hash;
        cur_header = match data_man.header_by_hash(&cur) {
            Some(header) => header,
            None => {
                proof {
                    if walk(store, start, period as nat).sound {
                        lemma_walk_sound_before(store, start, (step + 1) as nat, period as nat);
                    }
                }
                return None;
            },
        };
        if cur_header.timestamp != 0 {
            min_time = cur_header.timestamp;
        }
        if max_time < min_time {
            proof {
                if walk(store, start, period as nat).sound {
                    lemma_walk_sound_before(store, start, (step + 1) as nat, period as nat);
                }
            }
            return None;
        }
        step = step + 1;
    }

    let (lower, upper) = match pow_config.checked_adjustment_bound(cur_difficulty) {
        Some(bound) => bound,
        None => {
            return None;
        },
    };
    let mut target_diff = pow_config.target_difficulty(
        block_count,
        max_time - min_time,
        &cur_difficulty,
    );
    if upper.lt(&target_diff) {
        target_diff = upper;
    }
    if target_diff.lt(&lower) {
        target_diff = lower;
    }

    // Caching the computed target difficulty of this period.
    cache.set(*cur_hash, target_diff);

    Some(target_diff)
}

/// This function computes the target difficulty of the next period
/// based on the current period. `cur_hash` should be the hash of
/// the block at the current period upper boundary and it must have been
/// inserted to the store, unless its target difficulty is cached.
pub fn target_difficulty(
    data_man: &BlockStore,
    cache: &mut TargetDifficultyManager,
    pow_config: &ProofOfWorkConfig,
    cur_hash: &H256,
) -> (r: U256)
    requires
        old(cache)@.contains_key(cur_hash@) || resolvable(data_man@, *pow_config, cur_hash@),
    ensures
        resolution(data_man@, *pow_config, cur_hash@, old(cache)@, r, final(cache)@),
{
    match try_target_difficulty(data_man, cache, pow_config, cur_hash) {
        Some(target_diff) => target_diff,
        None => unreached(),
    }
}

/// A resolved difficulty lies within the adjustment bound of the epoch's own
/// difficulty.
pub proof fn lemma_resolved_within_bound(
    store: Map<Seq<u8>, StoredBlock>,
    config: ProofOfWorkConfig,
    hash: Seq<u8>,
)
    ensures
        config.lower_bound(store[hash].header.difficulty@) <= resolved_target(store, config, hash)
            <= config.upper_bound(store[hash].header.difficulty@),
{
}

/// With a positive initial difficulty, no resolved difficulty is zero.
pub proof fn lemma_resolved_positive(
    store: Map<Seq<u8>, StoredBlock>,
    config: ProofOfWorkConfig,
    hash: Seq<u8>,
)
    requires
        config.initial_difficulty > 0,
    ensures
        resolved_target(store, config, hash) >= config.initial_difficulty,
        resolved_target(store, config, hash) > 0,
{
}

/// Resolving a hash a second time returns the first result and leaves the
/// cache as it is, whatever the store and the configuration then hold: the
/// headers are walked once.
pub proof fn lemma_second_resolution_is_cached(
    store: Map<Seq<u8>, StoredBlock>,
    config: ProofOfWorkConfig,
    later_store: Map<Seq<u8>, StoredBlock>,
    later_config: ProofOfWorkConfig,
    hash: Seq<u8>,
    before: Map<Seq<u8>, U256>,
    first: U256,
    between: Map<Seq<u8>, U256>,
    second: U256,
    after: Map<Seq<u8>, U256>,
)
    requires
        resolution(store, config, hash, before, first, between),
        resolution(later_store, later_config, hash, between, second, after),
    ensures
        second == first,
        after == between,
        between.contains_key(hash),
{
}

} // verus!
