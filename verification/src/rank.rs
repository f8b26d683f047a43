//! Ranking of route keys by their closeness to a partial key.
//!
//! A key is ranked by three numbers, compared in turn: whether it contains
//! the partial key, whether it starts with it, and how far its length is
//! from that of the partial key. Keys of equal rank keep the order in which
//! they came.

use vstd::prelude::*;
use vstd::string::*;
use crate::text::{
    chars_of, contains, is_prefix, is_substring, lemma_prefix_is_substring, starts_with,
};

verus! {

/// The rank of a key, as numbers.
pub struct RankModel {
    /// 0 where the key contains the partial key, else 1.
    pub outside: int,
    /// 0 where the key starts with the partial key, else 1.
    pub off_start: int,
    /// The difference between the two lengths, in characters.
    pub distance: int,
}

/// The rank of a key.
#[derive(Debug, Clone, Copy)]
pub struct Rank {
    pub outside: u8,
    pub off_start: u8,
    pub distance: usize,
}

impl View for Rank {
    type V = RankModel;

    open spec fn view(&self) -> RankModel {
        RankModel {
            outside: self.outside as int,
            off_start: self.off_start as int,
            distance: self.distance as int,
        }
    }
}

/// Whether rank `a` comes strictly before rank `b`.
pub open spec fn rank_before(a: RankModel, b: RankModel) -> bool {
    ||| a.outside < b.outside
    ||| (a.outside == b.outside && a.off_start < b.off_start)
    ||| (a.outside == b.outside && a.off_start == b.off_start && a.distance < b.distance)
}

/// The rank of `key` against `partial`.
pub open spec fn rank_of(key: Seq<char>, partial: Seq<char>) -> RankModel {
    RankModel {
        outside: if is_substring(partial, key) {
            0
        } else {
            1
        },
        off_start: if is_prefix(partial, key) {
            0
        } else {
            1
        },
        distance: if key.len() >= partial.len() {
            key.len() - partial.len()
        } else {
            partial.len() - key.len()
        },
    }
}

impl Rank {
    /// Ranks `key` against `partial`.
    pub fn of(key: &str, partial: &str) -> (r: Rank)
        ensures
            r@ == rank_of(key@, partial@),
    {
        Rank::of_chars(&chars_of(key), &chars_of(partial))
    }

    /// Ranks a key against a partial key, both given by their characters.
    pub fn of_chars(key: &Vec<char>, partial: &Vec<char>) -> (r: Rank)
        ensures
            r@ == rank_of(key@, partial@),
    {
        Rank {
            outside: if contains(key, partial) {
                0
            } else {
                1
            },
            off_start: if starts_with(key, partial) {
                0
            } else {
                1
            },
            distance: if key.len() >= partial.len() {
                key.len() - partial.len()
            } else {
                partial.len() - key.len()
            },
        }
    }

    /// Whether this rank comes strictly before `other`.
    pub fn before(&self, other: &Rank) -> (r: bool)
        ensures
            r == rank_before(self@, other@),
    {
        self.outside < other.outside || (self.outside == other.outside && (self.off_start
            < other.off_start || (self.off_start == other.off_start && self.distance
            < other.distance)))
    }
}

/// Whether the item at index `a` comes before the item at index `b`: by
/// rank, and among equal ranks by index.
pub open spec fn precedes(ranks: Seq<RankModel>, a: int, b: int) -> bool {
    rank_before(ranks[a], ranks[b]) || (ranks[a] == ranks[b] && a < b)
}

/// Where an item of rank `r` goes into `order`: behind every item whose
/// rank does not come after `r`.
pub open spec fn slot(order: Seq<int>, ranks: Seq<RankModel>, r: RankModel) -> int
    decreases order.len(),
{
    if order.len() == 0 {
        0
    } else if rank_before(r, ranks[order.last()]) {
        slot(order.drop_last(), ranks, r)
    } else {
        order.len() as int
    }
}

/// The indices of the first `n` items in ranked order.
pub open spec fn ranking_of_first(ranks: Seq<RankModel>, n: nat) -> Seq<int>
    decreases n,
{
    if n == 0 {
        Seq::empty()
    } else {
        let earlier = ranking_of_first(ranks, (n - 1) as nat);
        earlier.insert(slot(earlier, ranks, ranks[n - 1]), n - 1)
    }
}

/// The indices of all items in ranked order.
pub open spec fn ranking(ranks: Seq<RankModel>) -> Seq<int> {
    ranking_of_first(ranks, ranks.len())
}

/// `order` holds each of the indices below `n` once, and each item in it
/// precedes those behind it.
pub open spec fn is_stable_order(order: Seq<int>, ranks: Seq<RankModel>, n: int) -> bool {
    &&& order.len() == n
    &&& forall|i: int| 0 <= i < order.len() ==> 0 <= #[trigger] order[i] < n
    &&& forall|i: int, j: int|
        0 <= i < j < order.len() ==> precedes(ranks, #[trigger] order[i], #[trigger] order[j])
    &&& forall|v: int| 0 <= v < n ==> #[trigger] order.contains(v)
}

/// Left of its slot no item comes after `r`; from the slot on every item does.
proof fn lemma_slot(order: Seq<int>, ranks: Seq<RankModel>, r: RankModel, n: int)
    requires
        is_stable_order(order, ranks, n),
        n <= ranks.len(),
    ensures
        0 <= slot(order, ranks, r) <= order.len(),
        forall|i: int|
            0 <= i < slot(order, ranks, r) ==> !rank_before(r, ranks[#[trigger] order[i]]),
        forall|i: int|
            slot(order, ranks, r) <= i < order.len() ==> rank_before(
                r,
                ranks[#[trigger] order[i]],
            ),
{
    lemma_slot_cut(order, ranks, r, order.len() as int);
    assert(order.take(order.len() as int) =~= order);
    let s = slot(order, ranks, r);
    if s > 0 {
        assert forall|i: int| 0 <= i < s implies !rank_before(r, ranks[#[trigger] order[i]]) by {
            if i < s - 1 {
                assert(precedes(ranks, order[i], order[s - 1]));
            }
        }
    }
}

/// The slot within the first `len` items of an order: the items from the
/// slot on come after `r`, and the one before the slot does not.
proof fn lemma_slot_cut(order: Seq<int>, ranks: Seq<RankModel>, r: RankModel, len: int)
    requires
        0 <= len <= order.len(),
    ensures
        0 <= slot(order.take(len), ranks, r) <= len,
        forall|i: int|
            slot(order.take(len), ranks, r) <= i < len ==> rank_before(
                r,
                ranks[#[trigger] order[i]],
            ),
        slot(order.take(len), ranks, r) > 0 ==> !rank_before(
            r,
            ranks[order[slot(order.take(len), ranks, r) - 1]],
        ),
    decreases len,
{
    if len > 0 {
        let part = order.take(len);
        assert(part.last() == order[len - 1]);
        assert(part.drop_last() =~= order.take(len - 1));
        if rank_before(r, ranks[part.last()]) {
            lemma_slot_cut(order, ranks, r, len - 1);
        }
    }
}

/// The ranked order holds every index once, sorted by rank, and leaves
/// items of equal rank in the order in which they came.
pub proof fn lemma_ranking_is_stable(ranks: Seq<RankModel>, n: nat)
    requires
        n <= ranks.len(),
    ensures
        is_stable_order(ranking_of_first(ranks, n), ranks, n as int),
    decreases n,
{
    if n > 0 {
        let earlier = ranking_of_first(ranks, (n - 1) as nat);
        lemma_ranking_is_stable(ranks, (n - 1) as nat);
        let r = ranks[n - 1];
        lemma_slot(earlier, ranks, r, n - 1);
        let s = slot(earlier, ranks, r);
        let order = earlier.insert(s, n - 1);
        assert forall|i: int, j: int| 0 <= i < j < order.len() implies precedes(
            ranks,
            #[trigger] order[i],
            #[trigger] order[j],
        ) by {
            if j < s {
                assert(order[i] == earlier[i] && order[j] == earlier[j]);
            } else if j == s {
                assert(order[i] == earlier[i]);
            } else if i < s {
                assert(order[i] == earlier[i] && order[j] == earlier[j - 1]);
            } else if i == s {
                assert(order[j] == earlier[j - 1]);
            } else {
                assert(order[i] == earlier[i - 1] && order[j] == earlier[j - 1]);
            }
        }
        assert forall|v: int| 0 <= v < n implies #[trigger] order.contains(v) by {
            if v == n - 1 {
                assert(order[s] == v);
            } else {
                assert(earlier.contains(v));
                let at = choose|at: int| 0 <= at < earlier.len() && earlier[at] == v;
                if at < s {
                    assert(order[at] == v);
                } else {
                    assert(order[at + 1] == v);
                }
            }
        }
        assert forall|i: int| 0 <= i < order.len() implies 0 <= #[trigger] order[i] < n by {
            if i < s {
                assert(order[i] == earlier[i]);
            } else if i > s {
                assert(order[i] == earlier[i - 1]);
            }
        }
    }
}

/// The views of a list of ranks.
pub open spec fn rank_models(ranks: Seq<Rank>) -> Seq<RankModel> {
    ranks.map_values(|r: Rank| r@)
}

/// The indices of a list, as numbers.
pub open spec fn indices(order: Seq<usize>) -> Seq<int> {
    order.map_values(|i: usize| i as int)
}

/// Orders the indices of `ranks` by rank, leaving items of equal rank in
/// the order in which they came.
pub fn rank_order(ranks: &Vec<Rank>) -> (r: Vec<usize>)
    ensures
        indices(r@) == ranking(rank_models(ranks@)),
{
    let ghost models = rank_models(ranks@);
    let mut order: Vec<usize> = Vec::new();
    let mut k: usize = 0;
    assert(indices(order@) =~= ranking_of_first(models, 0));
    while k < ranks.len()
        invariant
            k <= ranks.len(),
            models == rank_models(ranks@),
            order.len() == k,
            indices(order@) == ranking_of_first(models, k as nat),
        decreases ranks.len() - k,
    {
        let ghost earlier = indices(order@);
        proof {
            lemma_ranking_is_stable(models, k as nat);
        }
        let mut j: usize = order.len();
        assert(earlier.take(j as int) =~= earlier);
        while j > 0 && ranks[k].before(&ranks[order[j - 1]])
            invariant
                j <= order.len(),
                k < ranks.len(),
                order.len() == k,
                models == rank_models(ranks@),
                earlier == indices(order@),
                is_stable_order(earlier, models, k as int),
                slot(earlier, models, models[k as int]) == slot(
                    earlier.take(j as int),
                    models,
                    models[k as int],
                ),
            decreases j,
        {
            proof {
                let part = earlier.take(j as int);
                assert(part.last() == earlier[j - 1]);
                assert(part.drop_last() =~= earlier.take(j - 1));
                assert(earlier[j - 1] == order@[j - 1] as int);
                assert(models[earlier[j - 1]] == ranks@[earlier[j - 1]]@);
            }
            j -= 1;
        }
        proof {
            if j > 0 {
                let part = earlier.take(j as int);
                assert(part.last() == earlier[j - 1]);
                assert(earlier[j - 1] == order@[j - 1] as int);
                assert(0 <= earlier[j - 1] < k);
                assert(models[earlier[j - 1]] == ranks@[earlier[j - 1]]@);
            }
            assert(slot(earlier, models, models[k as int]) == j);
        }
        order.insert(j, k);
        proof {
            assert(indices(order@) =~= earlier.insert(j as int, k as int));
        }
        k += 1;
    }
    order
}

/// A key that starts with the partial key comes before every key that does
/// not; a key that contains it comes before every key that does not; and of
/// two keys alike in both, the one closer in length comes first.
pub proof fn lemma_ranking_prefers_closer(keys: Seq<Seq<char>>, partial: Seq<char>, a: int, b: int)
    requires
        0 <= a < keys.len(),
        0 <= b < keys.len(),
    ensures
        ({
            let order = ranking(ranks_of(keys, partial));
            let x = keys[order[a]];
            let y = keys[order[b]];
            &&& order.len() == keys.len()
            &&& 0 <= order[a] < keys.len()
            &&& 0 <= order[b] < keys.len()
            &&& is_prefix(partial, x) && !is_prefix(partial, y) ==> a < b
            &&& is_substring(partial, x) && !is_substring(partial, y) ==> a < b
            &&& (is_prefix(partial, x) <==> is_prefix(partial, y)) && (is_substring(partial, x)
                <==> is_substring(partial, y)) && rank_of(x, partial).distance < rank_of(
                y,
                partial,
            ).distance ==> a < b
        }),
{
    let ranks = ranks_of(keys, partial);
    let order = ranking(ranks);
    lemma_ranking_is_stable(ranks, ranks.len());
    let x = keys[order[a]];
    let y = keys[order[b]];
    if is_prefix(partial, x) {
        lemma_prefix_is_substring(partial, x);
    }
    if is_prefix(partial, y) {
        lemma_prefix_is_substring(partial, y);
    }
    if b < a {
        assert(precedes(ranks, order[b], order[a]));
    }
}

/// The ranks of a list of keys against a partial key.
pub open spec fn ranks_of(keys: Seq<Seq<char>>, partial: Seq<char>) -> Seq<RankModel> {
    Seq::new(keys.len(), |i: int| rank_of(keys[i], partial))
}

/// The keys in ranked order.
pub open spec fn ranked_keys(keys: Seq<Seq<char>>, partial: Seq<char>) -> Seq<Seq<char>> {
    ranking(ranks_of(keys, partial)).map_values(|i: int| keys[i])
}

} // verus!
