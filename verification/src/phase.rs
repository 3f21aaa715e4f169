//! Render-phase items and their ordering: one item per visible drawable per
//! camera per frame, sorted by a NaN-safe total-order key on camera-space
//! depth before dispatch, equal keys keeping their insertion order.
use vstd::prelude::*;
use vstd::seq_lib::{to_multiset_insert, to_multiset_remove};
use crate::dispatch::DrawFunctionId;
use crate::pipeline::RenderPipelineId;

verus! {

/// One render-phase item, collected during the queue stage and consumed by
/// the render stage, never persisted across frames.
#[derive(Clone, Copy, PartialEq, Eq, Structural, Debug)]
pub struct PrimitiveQuad {
    pub sort_key: u32,
    pub pipeline: RenderPipelineId,
    pub draw_function: DrawFunctionId,
    pub entity: u64,
    pub item_range_start: u32,
    pub item_range_end: u32,
}

/// The NaN-safe total-order key of a 32-bit float given by its bits: negative
/// floats are reversed below the non-negative ones, so that unsigned
/// comparison of keys orders the floats, with every NaN at one end of its
/// sign. The surrounding process computes the bits; the key is a pure bit
/// transform.
pub fn float_sort_key(bits: u32) -> (r: u32)
    ensures
        r == spec_float_sort_key(bits),
{
    if bits & 0x8000_0000u32 != 0 {
        !bits
    } else {
        bits | 0x8000_0000u32
    }
}

pub open spec fn spec_float_sort_key(bits: u32) -> u32 {
    if bits & 0x8000_0000u32 != 0 {
        !bits
    } else {
        bits | 0x8000_0000u32
    }
}

/// The phase is in drawing order.
pub open spec fn sorted_by_key(s: Seq<PrimitiveQuad>) -> bool {
    forall|a: int, b: int| 0 <= a < b < s.len() ==> (#[trigger] s[a]).sort_key
        <= (#[trigger] s[b]).sort_key
}

/// Where a new item with `key` lands among already placed items: after every
/// item whose key is less than or equal, so ties keep their arrival order.
pub open spec fn insert_pos(s: Seq<PrimitiveQuad>, key: u32) -> int
    decreases s.len(),
{
    if s.len() == 0 {
        0
    } else if s.first().sort_key <= key {
        1 + insert_pos(s.drop_first(), key)
    } else {
        0
    }
}

/// The stable sort of the phase, as a value: each item in arrival order is
/// placed after every already placed item whose key is less than or equal.
pub open spec fn spec_stable_sort(s: Seq<PrimitiveQuad>) -> Seq<PrimitiveQuad>
    decreases s.len(),
{
    if s.len() == 0 {
        Seq::empty()
    } else {
        let prev = spec_stable_sort(s.drop_last());
        prev.insert(insert_pos(prev, s.last().sort_key), s.last())
    }
}

proof fn lemma_insert_pos_bounds(s: Seq<PrimitiveQuad>, key: u32)
    ensures
        0 <= insert_pos(s, key) <= s.len(),
    decreases s.len(),
{
    if s.len() > 0 && s.first().sort_key <= key {
        lemma_insert_pos_bounds(s.drop_first(), key);
    }
}

/// The insertion position is the one boundary after the keys less than or
/// equal and before a strictly greater one.
proof fn lemma_insert_pos_char(s: Seq<PrimitiveQuad>, key: u32, j: int)
    requires
        0 <= j <= s.len(),
        forall|k: int| 0 <= k < j ==> (#[trigger] s[k]).sort_key <= key,
        j < s.len() ==> s[j].sort_key > key,
    ensures
        insert_pos(s, key) == j,
    decreases s.len(),
{
    if s.len() == 0 {
    } else if j == 0 {
        assert(s.first() == s[0]);
    } else {
        assert(s[0].sort_key <= key);
        let t = s.drop_first();
        assert forall|k: int| 0 <= k < j - 1 implies (#[trigger] t[k]).sort_key <= key by {
            assert(t[k] == s[k + 1]);
        }
        if j - 1 < t.len() {
            assert(t[j - 1] == s[j]);
        }
        lemma_insert_pos_char(t, key, j - 1);
    }
}

/// Sorts the phase items by sort key: the result is exactly the stable
/// insertion sort of the input, so equal keys keep their insertion order.
#[verifier::loop_isolation(false)]
#[verifier::rlimit(50)]
pub fn sort_phase(items: &mut Vec<PrimitiveQuad>)
    ensures
        final(items)@ == spec_stable_sort(old(items)@),
        sorted_by_key(final(items)@),
        final(items)@.to_multiset() == old(items)@.to_multiset(),
        final(items)@.len() == old(items)@.len(),
{
    let n = items.len();
    proof {
        vstd::seq_lib::to_multiset_len(items@);
    }
    if n < 2 {
        proof {
            if n == 1 {
                assert(items@.drop_last() =~= Seq::<PrimitiveQuad>::empty());
                assert(spec_stable_sort(items@.drop_last()) =~= Seq::<PrimitiveQuad>::empty());
                assert(spec_stable_sort(items@) =~= items@);
            } else {
                assert(items@ =~= Seq::<PrimitiveQuad>::empty());
                assert(spec_stable_sort(items@) =~= items@);
            }
        }
        return ;
    }
    proof {
        assert(items@.subrange(0, 1).drop_last() =~= Seq::<PrimitiveQuad>::empty());
        assert(spec_stable_sort(items@.subrange(0, 1).drop_last()) =~= Seq::<PrimitiveQuad>::empty());
        assert(items@.subrange(0, 1) =~= spec_stable_sort(items@.subrange(0, 1)));
        assert(items@.subrange(1, n as int) =~= old(items)@.subrange(1, n as int));
    }
    for i in 1..n
        invariant
            items@.len() == n,
            items@.to_multiset() == old(items)@.to_multiset(),
            sorted_by_key(items@.subrange(0, i as int)),
            items@.subrange(0, i as int) == spec_stable_sort(old(items)@.subrange(0, i as int)),
            items@.subrange(i as int, n as int) == old(items)@.subrange(i as int, n as int),
    {
        let key = items[i].sort_key;
        let ghost prefix = items@.subrange(0, i as int);
        proof {
            assert(items@[i as int] == items@.subrange(i as int, n as int)[0]);
            assert(items@[i as int] == old(items)@[i as int]);
            assert(old(items)@.subrange(0, i + 1).drop_last() =~= old(items)@.subrange(0, i as int));
            assert(old(items)@.subrange(0, i + 1).last() == old(items)@[i as int]);
        }
        let mut j: usize = 0;
        while j < i && items[j].sort_key <= key
            invariant
                0 <= j <= i,
                forall|k: int| 0 <= k < j ==> (#[trigger] items@[k]).sort_key <= key,
            decreases i - j,
        {
            j = j + 1;
        }
        proof {
            // the scan found the stable insertion boundary in the prefix
            assert forall|k: int| 0 <= k < j implies (#[trigger] prefix[k]).sort_key <= key by {
                assert(prefix[k] == items@[k]);
            }
            if j < i {
                assert(prefix[j as int] == items@[j as int]);
            }
            lemma_insert_pos_char(prefix, key, j as int);
            lemma_insert_pos_bounds(prefix, key);
        }
        if j < i {
            let ghost pre = items@;
            let item = items.remove(i);
            let ghost mid = items@;
            items.insert(j, item);
            proof {
                to_multiset_remove(pre, i as int);
                to_multiset_insert(mid, j as int, item);
                vstd::seq_lib::to_multiset_contains(pre, item);
                assert(pre.to_multiset().count(item) > 0) by {
                    assert(pre[i as int] == item);
                }
                assert(items@.to_multiset() =~= pre.to_multiset());
                pre.remove_ensures(i as int);
                mid.insert_ensures(j as int, item);
                assert forall|a2: int, b2: int| 0 <= a2 < b2 < i implies (#[trigger] pre[a2]).sort_key
                    <= (#[trigger] pre[b2]).sort_key by {
                    assert(pre.subrange(0, i as int)[a2] == pre[a2]);
                    assert(pre.subrange(0, i as int)[b2] == pre[b2]);
                }
                // the new prefix is sorted: unchanged below j, the item at j,
                // the old prefix shifted above j
                assert forall|a: int, b: int| 0 <= a < b < i + 1 implies (#[trigger] items@[a]).sort_key
                    <= (#[trigger] items@[b]).sort_key by {
                    assert(forall|k: int| 0 <= k < j ==> items@[k] == mid[k] && mid[k] == pre[k]);
                    assert(items@[j as int] == item);
                    assert forall|k: int| j < k <= i implies items@[k] == pre[k - 1] by {
                        assert(items@[k] == mid[k - 1]);
                        if k - 1 < i {
                            assert(mid[k - 1] == pre[k - 1]);
                        }
                    }
                    assert(item.sort_key < pre[j as int].sort_key);
                }
                assert(sorted_by_key(items@.subrange(0, i + 1)));
                // the new prefix is the old one with the item placed at its
                // stable position
                assert(items@.subrange(0, i + 1) =~= prefix.insert(j as int, item));
                assert(items@.subrange(0, i + 1) == spec_stable_sort(
                    old(items)@.subrange(0, i + 1),
                ));
                // the unprocessed suffix is untouched: the removal at i and
                // the insertion at j <= i cancel out beyond i
                assert forall|k: int| i + 1 <= k < n implies items@[k] == old(items)@[k] by {
                    assert(items@[k] == mid[k - 1]);
                    assert(mid[k - 1] == pre[k]);
                    assert(pre[k] == pre.subrange(i as int, n as int)[k - i]);
                    assert(old(items)@[k] == old(items)@.subrange(i as int, n as int)[k - i]);
                }
                assert(items@.subrange(i + 1, n as int) =~= old(items)@.subrange(i + 1, n as int));
            }
        } else {
            proof {
                assert forall|a: int, b: int| 0 <= a < b < i + 1 implies (#[trigger] items@[a]).sort_key
                    <= (#[trigger] items@[b]).sort_key by {
                    assert(items@.subrange(0, i as int)[a] == items@[a]);
                    if b < i {
                        assert(items@.subrange(0, i as int)[b] == items@[b]);
                    } else {
                        assert(items@[b].sort_key == key);
                    }
                }
                assert(sorted_by_key(items@.subrange(0, i + 1)));
                // the item already sits at its stable position: the end
                assert(items@.subrange(0, i + 1) =~= prefix.insert(i as int, items@[i as int]));
                assert(items@.subrange(0, i + 1) == spec_stable_sort(
                    old(items)@.subrange(0, i + 1),
                ));
                assert forall|k: int| i + 1 <= k < n implies items@[k] == old(items)@[k] by {
                    assert(items@[k] == items@.subrange(i as int, n as int)[k - i]);
                    assert(old(items)@[k] == old(items)@.subrange(i as int, n as int)[k - i]);
                }
                assert(items@.subrange(i + 1, n as int) =~= old(items)@.subrange(i + 1, n as int));
            }
        }
    }
    proof {
        assert(items@.subrange(0, n as int) =~= items@);
        assert(old(items)@.subrange(0, n as int) =~= old(items)@);
    }
}

} // verus!
