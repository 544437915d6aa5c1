//! Server-authoritative slot logic.
//!
//! A spin is a single row of three reels with symbols `1..=7`. The server rolls
//! the reels and decides the payout:
//! - three of a kind pays `stake * triple_multiplier(symbol)`;
//! - exactly two of a kind returns the stake;
//! - no match pays nothing.

use rand::rngs::ThreadRng;
use rand::Rng;
use vstd::prelude::*;

verus! {

/// Number of distinct symbols.
pub const SYMBOL_COUNT: i32 = 7;

/// Reels per spin.
pub const REELS: usize = 3;

/// A computed spin outcome.
pub struct Outcome {
    pub reels: Vec<i32>,
    /// Gross amount won (0 on a loss). Net balance change is `amount_earned - stake`.
    pub amount_earned: i64,
}

#[verifier::external_type_specification]
#[verifier::external_body]
pub struct ExThreadRng(ThreadRng);

/// Three-of-a-kind multiplier of a symbol.
pub open spec fn spec_triple_multiplier(symbol: i32) -> i64 {
    if symbol == 7 {
        50
    } else if symbol == 6 {
        25
    } else if symbol == 5 {
        15
    } else if symbol == 4 {
        10
    } else if symbol == 3 {
        8
    } else if symbol == 2 {
        6
    } else {
        5
    }
}

/// Every reel shows the same symbol.
pub open spec fn all_same(reels: Seq<i32>) -> bool {
    forall|i: int| 0 <= i < reels.len() ==> #[trigger] reels[i] == reels[0]
}

/// Two different reels show the same symbol.
pub open spec fn has_pair(reels: Seq<i32>) -> bool {
    exists|i: int, j: int| 0 <= i < j < reels.len() && #[trigger] reels[i] == #[trigger] reels[j]
}

/// Gross payout of a finished set of reels for a stake.
pub open spec fn spec_payout(reels: Seq<i32>, stake: int) -> int {
    if all_same(reels) {
        stake * spec_triple_multiplier(reels[0])
    } else if has_pair(reels) {
        stake
    } else {
        0
    }
}

/// A symbol a reel can show.
pub open spec fn is_symbol(s: i32) -> bool {
    1 <= s <= SYMBOL_COUNT
}

/// The largest multiplier times the stake fits in an `i64`.
pub open spec fn stake_in_range(stake: i64) -> bool {
    i64::MIN <= stake * 50 <= i64::MAX
}

/// Three-of-a-kind multiplier per symbol: 7 pays 50x, 6 pays 25x, 5 pays 15x,
/// 4 pays 10x, 3 pays 8x, 2 pays 6x, 1 (and anything else) pays 5x.
pub fn triple_multiplier(symbol: i32) -> (m: i64)
    ensures
        m == spec_triple_multiplier(symbol),
        5 <= m <= 50,
{
    match symbol {
        7 => 50,
        6 => 25,
        5 => 15,
        4 => 10,
        3 => 8,
        2 => 6,
        _ => 5,
    }
}

/// Payout for a finished set of reels.
pub fn payout(reels: &[i32], stake: i64) -> (amount: i64)
    requires
        reels@.len() >= 1,
        all_same(reels@) ==> i64::MIN <= stake * spec_triple_multiplier(reels@[0]) <= i64::MAX,
    ensures
        amount == spec_payout(reels@, stake as int),
{
    let n = reels.len();
    let mut same = true;
    let mut k: usize = 1;
    while k < n
        invariant
            n == reels@.len(),
            1 <= k <= n,
            same <==> (forall|i: int| 0 <= i < k ==> #[trigger] reels@[i] == reels@[0]),
        decreases n - k,
    {
        if reels[k] != reels[k - 1] {
            same = false;
        }
        proof {
            if same {
                assert forall|i: int| 0 <= i < k + 1 implies #[trigger] reels@[i] == reels@[0] by {
                    if i == k {
                        assert(reels@[k - 1] == reels@[0]);
                    }
                }
            } else if reels@[k as int] != reels@[k - 1] && reels@[k as int] == reels@[0] {
                assert(reels@[k - 1] != reels@[0]);
            }
        }
        k = k + 1;
    }
    if same {
        return stake * triple_multiplier(reels[0]);
    }
    let mut i: usize = 0;
    while i < n
        invariant
            n == reels@.len(),
            i <= n,
            !all_same(reels@),
            forall|a: int, b: int| 0 <= a < i && a < b < n ==> reels@[a] != reels@[b],
        decreases n - i,
    {
        let mut j: usize = i + 1;
        while j < n
            invariant
                n == reels@.len(),
                i < n,
                i + 1 <= j <= n,
                !all_same(reels@),
                forall|a: int, b: int| 0 <= a < i && a < b < n ==> reels@[a] != reels@[b],
                forall|b: int| i < b < j ==> reels@[i as int] != reels@[b],
            decreases n - j,
        {
            if reels[i] == reels[j] {
                assert(reels@[i as int] == reels@[j as int]);
                return stake;
            }
            j = j + 1;
        }
        i = i + 1;
    }
    0
}

/// Wrapper around `rand::rng`: a handle to the thread-local generator.
/// Nothing is claimed of it (it panics only if the OS random source fails).
#[verifier::external_body]
fn thread_rng() -> ThreadRng {
    rand::rng()
}

/// Wrapper around `Rng::random_range` on the inclusive range `low..=high`:
/// claims only that the value lies in that range (the range must be non-empty,
/// else the call panics).
#[verifier::external_body]
fn random_in_range(rng: &mut ThreadRng, low: i32, high: i32) -> (r: i32)
    requires
        low <= high,
    ensures
        low <= r <= high,
{
    rng.random_range(low..=high)
}

/// The thread-local generator of a spin, with every value drawn from it so far.
pub struct ReelSource {
    rng: ThreadRng,
    drawn: Ghost<Seq<i32>>,
}

impl ReelSource {
    /// The values drawn so far, in the order they were drawn.
    pub closed spec fn draws(self) -> Seq<i32> {
        self.drawn@
    }

    /// A source on the thread-local generator, nothing drawn yet.
    pub fn new() -> (s: ReelSource)
        ensures
            s.draws() == Seq::<i32>::empty(),
    {
        ReelSource { rng: thread_rng(), drawn: Ghost(Seq::empty()) }
    }

    /// Draw one symbol from `1..=SYMBOL_COUNT`; it is recorded as the newest
    /// drawn value.
    pub fn draw_symbol(&mut self) -> (r: i32)
        ensures
            is_symbol(r),
            final(self).draws() == old(self).draws().push(r),
    {
        let r = random_in_range(&mut self.rng, 1, SYMBOL_COUNT);
        proof {
            self.drawn@ = self.drawn@.push(r);
        }
        r
    }
}

/// Roll the reels from `source` and compute the payout for the given stake.
/// Each reel is a draw of its own: the reels are exactly the values this spin
/// drew, in order (reel `i` is the `i`-th draw), so any symbols the generator
/// gives show up as they came.
pub fn play_from(source: &mut ReelSource, stake: i64) -> (outcome: Outcome)
    requires
        stake_in_range(stake),
    ensures
        final(source).draws() == old(source).draws() + outcome.reels@,
        outcome.reels@.len() == REELS,
        forall|i: int| 0 <= i < outcome.reels@.len() ==> is_symbol(#[trigger] outcome.reels@[i]),
        outcome.amount_earned == spec_payout(outcome.reels@, stake as int),
{
    let ghost start = source.draws();
    let mut reels: Vec<i32> = Vec::new();
    let mut k: usize = 0;
    while k < REELS
        invariant
            reels@.len() == k,
            k <= REELS,
            source.draws() == start + reels@,
            forall|i: int| 0 <= i < k ==> is_symbol(#[trigger] reels@[i]),
        decreases REELS - k,
    {
        let s = source.draw_symbol();
        reels.push(s);
        assert(source.draws() =~= start + reels@);
        k = k + 1;
    }
    proof {
        let m = spec_triple_multiplier(reels@[0]);
        assert(i64::MIN <= stake * m <= i64::MAX) by (nonlinear_arith)
            requires
                i64::MIN <= stake * 50 <= i64::MAX,
                5 <= m <= 50,
        {
            if stake >= 0 {
                assert(stake * m <= stake * 50);
                assert(stake * m >= 0);
            } else {
                assert(stake * m >= stake * 50);
                assert(stake * m <= 0);
            }
        }
    }
    let amount_earned = payout(reels.as_slice(), stake);
    Outcome { reels, amount_earned }
}

/// Roll three reels and compute the payout for the given stake.
pub fn play(stake: i64) -> (outcome: Outcome)
    requires
        stake_in_range(stake),
    ensures
        outcome.reels@.len() == REELS,
        forall|i: int| 0 <= i < outcome.reels@.len() ==> is_symbol(#[trigger] outcome.reels@[i]),
        outcome.amount_earned == spec_payout(outcome.reels@, stake as int),
{
    let mut source = ReelSource::new();
    play_from(&mut source, stake)
}

/// Rarer symbols pay more: among the symbols `1..=7`, a higher symbol has a
/// strictly larger three-of-a-kind multiplier.
pub proof fn lemma_higher_symbol_pays_more(a: i32, b: i32)
    requires
        is_symbol(a),
        is_symbol(b),
        a < b,
    ensures
        spec_triple_multiplier(a) < spec_triple_multiplier(b),
{
}

/// For a non-negative stake the payout is one of the three tiers: nothing, the
/// stake back, or the stake times the symbol's multiplier; it never exceeds
/// fifty times the stake, and it returns at least the stake exactly when two
/// reels match.
pub proof fn lemma_payout_tiers(reels: Seq<i32>, stake: int)
    requires
        reels.len() >= 2,
        stake > 0,
    ensures
        0 <= spec_payout(reels, stake) <= 50 * stake,
        spec_payout(reels, stake) == 0
            || spec_payout(reels, stake) == stake
            || spec_payout(reels, stake) == stake * spec_triple_multiplier(reels[0]),
        spec_payout(reels, stake) >= stake <==> has_pair(reels),
        spec_payout(reels, stake) > stake <==> all_same(reels),
{
    let m = spec_triple_multiplier(reels[0]);
    assert(5 <= m <= 50);
    assert(stake * 5 <= stake * m <= stake * 50) by (nonlinear_arith)
        requires
            stake > 0,
            5 <= m <= 50,
    ;
    if all_same(reels) {
        assert(reels[0] == reels[1]);
        assert(has_pair(reels));
    }
}

/// Two reels match exactly when the reels are not all distinct.
proof fn lemma_has_pair_iff_duplicates(reels: Seq<i32>)
    ensures
        has_pair(reels) <==> !reels.no_duplicates(),
{
    if !reels.no_duplicates() {
        let (i, j) = choose|i: int, j: int|
            0 <= i < reels.len() && 0 <= j < reels.len() && i != j && reels[i] == reels[j];
        if i < j {
            assert(reels[i] == reels[j]);
        } else {
            assert(reels[j] == reels[i]);
        }
    }
}

/// Reels showing the same symbols, in whatever order, show every symbol of
/// each other.
proof fn lemma_same_symbols(a: Seq<i32>, b: Seq<i32>, i: int)
    requires
        a.to_multiset() == b.to_multiset(),
        0 <= i < b.len(),
    ensures
        a.contains(b[i]),
{
    broadcast use vstd::seq_lib::group_to_multiset_ensures;

    assert(b.contains(b[i]));
    assert(b.to_multiset().count(b[i]) > 0);
    assert(a.to_multiset().count(b[i]) > 0);
}

/// The order of the reels does not matter: reels showing the same symbols (as
/// a multiset), in any order and of any number, pay the same.
pub proof fn lemma_payout_ignores_order(reels: Seq<i32>, other: Seq<i32>, stake: int)
    requires
        reels.to_multiset() == other.to_multiset(),
    ensures
        spec_payout(reels, stake) == spec_payout(other, stake),
{
    broadcast use vstd::seq_lib::group_to_multiset_ensures;

    assert(reels.len() == reels.to_multiset().len());
    assert(other.len() == other.to_multiset().len());
    assert(reels.len() == other.len());
    if reels.len() == 0 {
        assert(reels =~= other);
        return;
    }
    if all_same(reels) {
        assert forall|i: int| 0 <= i < other.len() implies #[trigger] other[i] == reels[0] by {
            lemma_same_symbols(reels, other, i);
        }
        assert(all_same(other));
    }
    if all_same(other) {
        assert forall|i: int| 0 <= i < reels.len() implies #[trigger] reels[i] == other[0] by {
            lemma_same_symbols(other, reels, i);
        }
        assert(all_same(reels));
    }
    if all_same(reels) {
        lemma_same_symbols(reels, other, 0);
        assert(other[0] == reels[0]);
    }
    lemma_has_pair_iff_duplicates(reels);
    lemma_has_pair_iff_duplicates(other);
    if reels.no_duplicates() {
        reels.lemma_multiset_has_no_duplicates();
        other.lemma_multiset_has_no_duplicates_conv();
    }
    if other.no_duplicates() {
        other.lemma_multiset_has_no_duplicates();
        reels.lemma_multiset_has_no_duplicates_conv();
    }
}

} // verus!
