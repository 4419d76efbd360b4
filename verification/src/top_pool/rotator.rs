//! The ban cache.
//!
//! Operations that outlive their validity are thrown out of the pool and
//! banned for a while, so that they are not imported again at once.

use crate::time::{Duration, Instant};
use crate::top_pool::base_pool::TrustedOperation;
use std::collections::HashMap;
use vstd::prelude::*;
use vstd::std_specs::hash::*;
use vstd::std_specs::iter::IteratorSpec;

verus! {

broadcast use vstd::std_specs::hash::group_hash_axioms;

/// Expected number of banned hashes. The cache grows to twice this number and
/// is then cut back to it.
pub const EXPECTED_SIZE: usize = 2048;

/// Seconds of a ban where none is chosen: half an hour.
pub const DEFAULT_BAN_SECS: u64 = 1800;

/// `bans` after every hash of `hashes` was banned until `expiry`: an earlier
/// ban of the same hash is overwritten.
pub open spec fn with_bans<Hash>(bans: Map<Hash, nat>, hashes: Seq<Hash>, expiry: nat) -> Map<
    Hash,
    nat,
> {
    Map::new(
        |h: Hash| bans.contains_key(h) || hashes.contains(h),
        |h: Hash|
            if hashes.contains(h) {
                expiry
            } else {
                bans[h]
            },
    )
}

/// What a sweep at `now` leaves of `bans`: the bans that end at `now` or
/// later.
pub open spec fn unexpired<Hash>(bans: Map<Hash, nat>, now: nat) -> Map<Hash, nat> {
    Map::new(|h: Hash| bans.contains_key(h) && bans[h] >= now, |h: Hash| bans[h])
}

/// Whether `after` may be what banning `hashes` until `expiry` makes of
/// `before`.
///
/// While the cache holds at most twice [`EXPECTED_SIZE`] bans, all of them are
/// kept. Beyond that, exactly [`EXPECTED_SIZE`] of them are kept, and which
/// ones is left open.
pub open spec fn ban_outcome<Hash>(
    before: Map<Hash, nat>,
    after: Map<Hash, nat>,
    hashes: Seq<Hash>,
    expiry: nat,
) -> bool {
    let all = with_bans(before, hashes, expiry);
    if all.len() <= 2 * EXPECTED_SIZE {
        after == all
    } else {
        &&& after.submap_of(all)
        &&& after.dom().finite()
        &&& after.len() == EXPECTED_SIZE
    }
}

/// The first `i + 1` items of a sequence are its first `i` items and the
/// item at `i`.
proof fn lemma_take_one_more<T>(items: Seq<T>, i: int)
    requires
        0 <= i < items.len(),
    ensures
        forall|x: T| items.take(i + 1).contains(x) <==> items.take(i).contains(x) || x == items[i],
{
    let seen = items.take(i);
    let next = items.take(i + 1);
    assert(next =~= seen.push(items[i]));
    assert forall|x: T| next.contains(x) <==> seen.contains(x) || x == items[i] by {
        if seen.contains(x) {
            let j = choose|j: int| 0 <= j < seen.len() && seen[j] == x;
            assert(next[j] == x);
        }
        if x == items[i] {
            assert(next[i] == x);
        }
    }
}

/// What the cache asks of the type of its hashes: that it behaves as the key
/// of a hash map, with a deterministic hash and an `==` that is identity,
/// and that a clone of a hash is that hash.
pub open spec fn hash_is_key<Hash: Clone>() -> bool {
    &&& obeys_key_model::<Hash>()
    &&& forall|a: Hash, b: Hash| #[trigger] cloned(a, b) ==> a == b
}

/// Hashes of 64 bits are keys.
pub proof fn lemma_u64_is_key()
    ensures
        hash_is_key::<u64>(),
{
}

/// A clone of `hash`, which is `hash` again.
fn copy_of<Hash: Clone>(hash: &Hash) -> (copy: Hash)
    requires
        hash_is_key::<Hash>(),
    ensures
        copy == *hash,
{
    let copy = hash.clone();
    assert(cloned(*hash, copy));
    copy
}

/// The bans that a map from hash to end of ban holds, the ends as numbers.
spec fn bans_of<Hash>(banned: Map<Hash, u128>) -> Map<Hash, nat> {
    Map::new(|h: Hash| banned.contains_key(h), |h: Hash| banned[h] as nat)
}

/// Bans every hash of `hashes` until `expiry`.
fn insert_bans<Hash: std::hash::Hash + Eq + Clone>(
    banned: &mut HashMap<Hash, u128>,
    hashes: &[Hash],
    expiry: u128,
)
    requires
        hash_is_key::<Hash>(),
    ensures
        bans_of(final(banned)@) == with_bans(bans_of(old(banned)@), hashes@, expiry as nat),
{
    let mut i: usize = 0;
    assert(bans_of(banned@) =~= with_bans(bans_of(banned@), hashes@.take(0), expiry as nat));
    while i < hashes.len()
        invariant
            hash_is_key::<Hash>(),
            i <= hashes.len(),
            bans_of(banned@) == with_bans(
                bans_of(old(banned)@),
                hashes@.take(i as int),
                expiry as nat,
            ),
        decreases hashes.len() - i,
    {
        let ghost before = banned@;
        banned.insert(copy_of(&hashes[i]), expiry);
        proof {
            let seen = hashes@.take(i as int);
            let next = hashes@.take(i + 1);
            let added = hashes@[i as int];
            lemma_take_one_more(hashes@, i as int);
            let so_far = with_bans(bans_of(old(banned)@), seen, expiry as nat);
            let now = with_bans(bans_of(old(banned)@), next, expiry as nat);
            assert forall|h: Hash| #[trigger]
                bans_of(banned@).contains_key(h) == now.contains_key(h) by {
                assert(next.contains(h) <==> seen.contains(h) || h == added);
                assert(bans_of(before).contains_key(h) == so_far.contains_key(h));
            }
            assert forall|h: Hash| #[trigger]
                bans_of(banned@).contains_key(h) implies bans_of(banned@)[h] == now[h] by {
                assert(next.contains(h) <==> seen.contains(h) || h == added);
                assert(bans_of(before).contains_key(h) == so_far.contains_key(h));
                if h != added {
                    assert(bans_of(before)[h] == so_far[h]);
                }
            }
            assert(bans_of(banned@) =~= now);
        }
        i += 1;
    }
    assert(hashes@.take(i as int) =~= hashes@);
}

/// The first `count` keys of `banned`, in the order in which the map hands
/// out its keys.
fn first_keys<Hash: std::hash::Hash + Eq + Clone>(banned: &HashMap<Hash, u128>, count: usize) -> (keys:
    Vec<Hash>)
    requires
        hash_is_key::<Hash>(),
        count <= banned@.len(),
    ensures
        keys@.len() == count,
        keys@.no_duplicates(),
        forall|i: int| 0 <= i < keys@.len() ==> banned@.contains_key(#[trigger] keys@[i]),
{
    let mut keys: Vec<Hash> = Vec::new();
    for k in it: banned.keys()
        invariant
            hash_is_key::<Hash>(),
            it.seq() == spec_keys_iter(banned).remaining(),
            keys@.len() == if it.index() < count { it.index() } else { count as int },
            forall|i: int| 0 <= i < keys@.len() ==> #[trigger] keys@[i] == *it.seq()[i],
    {
        if keys.len() < count {
            keys.push(copy_of(k));
        }
    }
    proof {
        let all = spec_keys_iter(banned).remaining();
        assert forall|i: int| 0 <= i < keys@.len() implies banned@.contains_key(
            #[trigger] keys@[i],
        ) by {
            assert(all.unref()[i] == keys@[i]);
            assert(all.unref().to_set().contains(keys@[i]));
        }
        assert forall|i: int, j: int| 0 <= i < j < keys@.len() implies keys@[i] != keys@[j] by {
            assert(all[i] != all[j]);
        }
    }
    keys
}

/// Removes bans, in the order in which the map hands out its keys, until at
/// most [`EXPECTED_SIZE`] are left.
fn evict_surplus<Hash: std::hash::Hash + Eq + Clone>(banned: &mut HashMap<Hash, u128>)
    requires
        hash_is_key::<Hash>(),
    ensures
        final(banned)@.submap_of(old(banned)@),
        final(banned)@.len() == if old(banned)@.len() > EXPECTED_SIZE {
            EXPECTED_SIZE as nat
        } else {
            old(banned)@.len()
        },
{
    let size = banned.len();
    if size <= EXPECTED_SIZE {
        return ;
    }
    let victims = first_keys(banned, size - EXPECTED_SIZE);
    let mut i: usize = 0;
    while i < victims.len()
        invariant
            hash_is_key::<Hash>(),
            i <= victims@.len(),
            victims@.no_duplicates(),
            banned@.submap_of(old(banned)@),
            banned@.len() == old(banned)@.len() - i,
            forall|j: int| i <= j < victims@.len() ==> banned@.contains_key(#[trigger] victims@[j]),
        decreases victims.len() - i,
    {
        banned.remove(&victims[i]);
        i += 1;
    }
}

/// Bans every hash of `hashes` until `expiry`, then cuts the map back to
/// [`EXPECTED_SIZE`] bans if it has grown beyond twice that.
fn apply_bans<Hash: std::hash::Hash + Eq + Clone>(
    banned: &mut HashMap<Hash, u128>,
    hashes: &[Hash],
    expiry: u128,
)
    requires
        hash_is_key::<Hash>(),
    ensures
        ban_outcome(bans_of(old(banned)@), bans_of(final(banned)@), hashes@, expiry as nat),
        final(banned)@.len() <= 2 * EXPECTED_SIZE,
{
    insert_bans(banned, hashes, expiry);
    let ghost all = banned@;
    assert(bans_of(all).dom() =~= all.dom());
    if banned.len() > 2 * EXPECTED_SIZE {
        evict_surplus(banned);
        assert(bans_of(banned@).dom() =~= banned@.dom());
    }
}

/// The hashes whose ban in `banned` ends before `now`.
fn expired_keys<Hash: std::hash::Hash + Eq + Clone>(banned: &HashMap<Hash, u128>, now: u128) -> (keys:
    Vec<Hash>)
    requires
        hash_is_key::<Hash>(),
    ensures
        forall|h: Hash| keys@.contains(h) <==> banned@.contains_key(h) && banned@[h] < now,
{
    let mut keys: Vec<Hash> = Vec::new();
    for entry in it: banned.iter()
        invariant
            hash_is_key::<Hash>(),
            it.seq() == spec_hash_map_iter(banned).remaining(),
            forall|j: int|
                0 <= j < keys@.len() ==> banned@.contains_key(#[trigger] keys@[j]) && banned@[keys@[j]]
                    < now,
            forall|i: int|
                0 <= i < it.index() && *(#[trigger] it.seq()[i]).1 < now ==> keys@.contains(
                    *it.seq()[i].0,
                ),
    {
        let ghost found = keys@;
        if *entry.1 < now {
            keys.push(copy_of(entry.0));
            proof {
                let last = found.len() as int;
                assert(keys@[last] == *entry.0);
                assert forall|i: int|
                    0 <= i < it.index() + 1 && *(#[trigger] it.seq()[i]).1 < now implies keys@.contains(
                    *it.seq()[i].0,
                ) by {
                    if i < it.index() {
                        let j = choose|j: int| 0 <= j < found.len() && found[j] == *it.seq()[i].0;
                        assert(keys@[j] == *it.seq()[i].0);
                    }
                }
            }
        }
    }
    proof {
        let all = spec_hash_map_iter(banned).remaining();
        assert forall|h: Hash| banned@.contains_key(h) && banned@[h] < now implies keys@.contains(
            h,
        ) by {
            assert(all.contains((&h, &banned@[h])));
            let i = choose|i: int| 0 <= i < all.len() && all[i] == (&h, &banned@[h]);
            assert(*all[i].1 < now);
        }
    }
    keys
}

/// Removes every ban that ends before `now`.
fn sweep<Hash: std::hash::Hash + Eq + Clone>(banned: &mut HashMap<Hash, u128>, now: u128)
    requires
        hash_is_key::<Hash>(),
    ensures
        bans_of(final(banned)@) == unexpired(bans_of(old(banned)@), now as nat),
        final(banned)@.len() <= old(banned)@.len(),
{
    let expired = expired_keys(banned, now);
    let mut i: usize = 0;
    while i < expired.len()
        invariant
            hash_is_key::<Hash>(),
            i <= expired@.len(),
            banned@.submap_of(old(banned)@),
            banned@.len() <= old(banned)@.len(),
            forall|h: Hash|
                banned@.contains_key(h) <==> old(banned)@.contains_key(h) && !expired@.take(
                    i as int,
                ).contains(h),
        decreases expired.len() - i,
    {
        let ghost key = expired@[i as int];
        let ghost before = banned@;
        banned.remove(&expired[i]);
        proof {
            lemma_take_one_more(expired@, i as int);
            if before.contains_key(key) {
                assert(before.remove(key).len() == before.len() - 1);
            }
        }
        i += 1;
    }
    proof {
        assert(expired@.take(i as int) =~= expired@);
        assert(bans_of(banned@) =~= unexpired(bans_of(old(banned)@), now as nat));
    }
}

/// The cache of banned operation hashes, each with the time at which its ban
/// ends.
///
/// A ban is looked up by hash alone: whether its time has passed is decided
/// only when [`PoolRotator::clear_timeouts`] sweeps the cache. The cache never
/// holds more than twice [`EXPECTED_SIZE`] bans.
///
/// The contracts hold for a `Hash` of which [`hash_is_key`] holds.
pub struct PoolRotator<Hash> {
    /// How long an operation is banned for.
    ban_time: Duration,
    /// Currently banned hashes, each with the end of its ban in nanoseconds.
    banned_until: HashMap<Hash, u128>,
}

impl<Hash> View for PoolRotator<Hash> {
    type V = Map<Hash, nat>;

    /// The bans: each banned hash with the end of its ban, in nanoseconds on
    /// the caller's clock.
    closed spec fn view(&self) -> Map<Hash, nat> {
        bans_of(self.banned_until@)
    }
}

impl<Hash> PoolRotator<Hash> {
    #[verifier::type_invariant]
    spec fn bounded(&self) -> bool {
        self.banned_until@.len() <= 2 * EXPECTED_SIZE
    }

    /// The length of a ban in nanoseconds.
    pub closed spec fn ban_nanos(&self) -> nat {
        self.ban_time.nanos()
    }
}

impl<Hash: std::hash::Hash + Eq + Clone + core::fmt::Debug> PoolRotator<Hash> {
    /// An empty cache whose bans last `ban_time`.
    pub fn new(ban_time: Duration) -> (rotator: Self)
        ensures
            rotator@ == Map::<Hash, nat>::empty(),
            rotator.ban_nanos() == ban_time.nanos(),
    {
        let rotator = PoolRotator { ban_time, banned_until: HashMap::new() };
        assert(rotator@ =~= Map::<Hash, nat>::empty());
        rotator
    }

    /// How long an operation is banned for.
    pub fn ban_time(&self) -> (span: Duration)
        ensures
            span.nanos() == self.ban_nanos(),
    {
        self.ban_time
    }

    /// The number of bans in the cache.
    pub fn len(&self) -> (n: usize)
        requires
            hash_is_key::<Hash>(),
        ensures
            self@.dom().finite(),
            n == self@.len(),
            n <= 2 * EXPECTED_SIZE,
    {
        proof {
            use_type_invariant(self);
            assert(self@.dom() =~= self.banned_until@.dom());
        }
        self.banned_until.len()
    }

    /// Returns `true` if `hash` is banned, whether or not its ban has run
    /// out.
    pub fn is_banned(&self, hash: &Hash) -> (banned: bool)
        requires
            hash_is_key::<Hash>(),
        ensures
            banned == self@.contains_key(*hash),
    {
        self.banned_until.contains_key(hash)
    }

    /// Bans every hash of `hashes` until `now` plus the ban time; a hash that
    /// is banned already gets the new end.
    ///
    /// If the cache then holds more than twice [`EXPECTED_SIZE`] bans, it is
    /// cut back to exactly [`EXPECTED_SIZE`]. Which bans go is left to the
    /// order in which the underlying map hands out its keys: a ban made by
    /// this very call may be among them.
    pub fn ban(&mut self, now: &Instant, hashes: &[Hash])
        requires
            hash_is_key::<Hash>(),
        ensures
            final(self).ban_nanos() == old(self).ban_nanos(),
            ban_outcome(old(self)@, final(self)@, hashes@, now.nanos() + old(self).ban_nanos()),
            final(self)@.len() <= 2 * EXPECTED_SIZE,
    {
        let expiry: u128 = now.as_nanos() + self.ban_time.as_nanos();
        let mut banned: HashMap<Hash, u128> = HashMap::new();
        std::mem::swap(&mut self.banned_until, &mut banned);
        apply_bans(&mut banned, hashes, expiry);
        std::mem::swap(&mut self.banned_until, &mut banned);
        assert(self@.dom() =~= self.banned_until@.dom());
    }

    /// Bans the operation if it is stale at `current_block`, that is, if its
    /// `valid_till` is not greater than `current_block`.
    ///
    /// Returns `true` if the operation is stale and got banned. Otherwise
    /// the cache is left as it was.
    pub fn ban_if_stale<Ex>(
        &mut self,
        now: &Instant,
        current_block: u64,
        xt: &TrustedOperation<Hash, Ex>,
    ) -> (stale: bool)
        requires
            hash_is_key::<Hash>(),
        ensures
            stale == xt.is_stale_at(current_block),
            final(self).ban_nanos() == old(self).ban_nanos(),
            stale ==> ban_outcome(
                old(self)@,
                final(self)@,
                seq![xt.hash],
                now.nanos() + old(self).ban_nanos(),
            ),
            !stale ==> final(self)@ == old(self)@,
    {
        if xt.valid_till > current_block {
            return false;
        }
        let hashes: [Hash; 1] = [copy_of(&xt.hash)];
        assert(hashes@ =~= seq![xt.hash]);
        self.ban(now, hashes.as_slice());
        true
    }

    /// Removes every ban that ends before `now`. A ban that ends exactly at
    /// `now` stays.
    pub fn clear_timeouts(&mut self, now: &Instant)
        requires
            hash_is_key::<Hash>(),
        ensures
            final(self).ban_nanos() == old(self).ban_nanos(),
            final(self)@ == unexpired(old(self)@, now.nanos()),
    {
        proof {
            use_type_invariant(&*self);
        }
        let mut banned: HashMap<Hash, u128> = HashMap::new();
        std::mem::swap(&mut self.banned_until, &mut banned);
        sweep(&mut banned, now.as_nanos());
        std::mem::swap(&mut self.banned_until, &mut banned);
    }
}

impl<Hash: std::hash::Hash + Eq> Default for PoolRotator<Hash> {
    /// An empty cache whose bans last half an hour.
    fn default() -> (rotator: Self)
        ensures
            rotator@ == Map::<Hash, nat>::empty(),
            rotator.ban_nanos() == DEFAULT_BAN_SECS * crate::time::NANOS_PER_SEC,
    {
        let rotator = PoolRotator {
            ban_time: Duration::from_secs(DEFAULT_BAN_SECS),
            banned_until: HashMap::new(),
        };
        assert(rotator@ =~= Map::<Hash, nat>::empty());
        rotator
    }
}

impl<Hash> PoolRotator<Hash> {
    /// A cache holds finitely many bans.
    pub proof fn lemma_finite(self)
        ensures
            self@.dom().finite(),
    {
        assert(self@.dom() =~= self.banned_until@.dom());
    }
}

/// Banning adds at most one ban for each hash of the call, and none for a
/// hash that was banned before.
pub proof fn lemma_with_bans_len<Hash>(bans: Map<Hash, nat>, hashes: Seq<Hash>, expiry: nat)
    requires
        bans.dom().finite(),
    ensures
        with_bans(bans, hashes, expiry).dom().finite(),
        bans.len() <= with_bans(bans, hashes, expiry).len() <= bans.len() + hashes.len(),
        with_bans(bans, hashes, expiry).dom() == bans.dom().union(hashes.to_set()),
{
    let all = with_bans(bans, hashes, expiry);
    assert(all.dom() =~= bans.dom().union(hashes.to_set()));
    vstd::seq_lib::seq_to_set_is_finite(hashes);
    vstd::set_lib::lemma_len_union(bans.dom(), hashes.to_set());
    vstd::set_lib::lemma_len_subset(bans.dom(), all.dom());
    hashes.lemma_cardinality_of_set();
}

/// A ban never leaves more than twice [`EXPECTED_SIZE`] bans in the cache.
pub proof fn lemma_ban_keeps_cache_bounded<Hash>(
    before: Map<Hash, nat>,
    after: Map<Hash, nat>,
    hashes: Seq<Hash>,
    expiry: nat,
)
    requires
        before.dom().finite(),
        ban_outcome(before, after, hashes, expiry),
    ensures
        after.dom().finite(),
        after.len() <= 2 * EXPECTED_SIZE,
{
    lemma_with_bans_len(before, hashes, expiry);
}

/// While there is room for them, the hashes of a call are banned right after
/// it, until the end that the call gave them.
pub proof fn lemma_banned_after_ban<Hash>(
    before: Map<Hash, nat>,
    after: Map<Hash, nat>,
    hashes: Seq<Hash>,
    expiry: nat,
    hash: Hash,
)
    requires
        before.dom().finite(),
        before.len() + hashes.len() <= 2 * EXPECTED_SIZE,
        ban_outcome(before, after, hashes, expiry),
        hashes.contains(hash),
    ensures
        after.contains_key(hash),
        after[hash] == expiry,
{
    lemma_with_bans_len(before, hashes, expiry);
}

/// A ban leaves hashes that the call does not name as they were, while there
/// is room: banned until the same time, or not banned.
pub proof fn lemma_ban_leaves_others<Hash>(
    before: Map<Hash, nat>,
    after: Map<Hash, nat>,
    hashes: Seq<Hash>,
    expiry: nat,
    hash: Hash,
)
    requires
        before.dom().finite(),
        before.len() + hashes.len() <= 2 * EXPECTED_SIZE,
        ban_outcome(before, after, hashes, expiry),
        !hashes.contains(hash),
    ensures
        after.contains_key(hash) == before.contains_key(hash),
        before.contains_key(hash) ==> after[hash] == before[hash],
{
    lemma_with_bans_len(before, hashes, expiry);
}

/// One more hash in a cache that holds twice [`EXPECTED_SIZE`] bans cuts the
/// cache back to exactly [`EXPECTED_SIZE`].
pub proof fn lemma_overflow_cuts_to_expected_size<Hash>(
    before: Map<Hash, nat>,
    after: Map<Hash, nat>,
    hash: Hash,
    expiry: nat,
)
    requires
        before.dom().finite(),
        before.len() == 2 * EXPECTED_SIZE,
        !before.contains_key(hash),
        ban_outcome(before, after, seq![hash], expiry),
    ensures
        after.len() == EXPECTED_SIZE,
{
    let all = with_bans(before, seq![hash], expiry);
    assert(seq![hash][0] == hash);
    assert(all =~= before.insert(hash, expiry));
}

/// A sweep after the end of a ban removes it. So a hash that was banned at
/// some time is not banned any more after a sweep two ban times later,
/// provided that a ban lasts longer than no time at all: with a ban time of
/// zero the ban ends at the time of that sweep and is kept.
pub proof fn lemma_sweep_removes_ban<Hash>(
    before: Map<Hash, nat>,
    after: Map<Hash, nat>,
    hashes: Seq<Hash>,
    expiry: nat,
    hash: Hash,
    now: nat,
)
    requires
        before.dom().finite(),
        ban_outcome(before, after, hashes, expiry),
        hashes.contains(hash),
        expiry < now,
    ensures
        !unexpired(after, now).contains_key(hash),
{
    let all = with_bans(before, hashes, expiry);
    if after.contains_key(hash) {
        assert(all.contains_key(hash));
        assert(after[hash] == all[hash]);
    }
}

/// A sweep keeps exactly the bans that end at its time or later, each until
/// the same time as before, and so never adds one.
pub proof fn lemma_sweep_keeps_unexpired<Hash>(bans: Map<Hash, nat>, now: nat, hash: Hash)
    ensures
        unexpired(bans, now).contains_key(hash) <==> bans.contains_key(hash) && bans[hash] >= now,
        unexpired(bans, now).contains_key(hash) ==> unexpired(bans, now)[hash] == bans[hash],
        unexpired(bans, now).submap_of(bans),
{
}

} // verus!
