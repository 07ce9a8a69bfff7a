//! Properties that relate several calls: pushing past a stack's capacity, and the
//! first-in first-out reuse of tags.
use vstd::prelude::*;

use crate::allocator::{allocated, freed, TagPool};
use crate::effect_stack::{free_slot_from, is_free, push_slot, pushed, Effect};
use crate::MAX_FX;

verus! {

/// The slots after pushing each effect of `es` in order.
pub open spec fn push_all(s: Seq<Effect>, es: Seq<Effect>) -> Seq<Effect>
    decreases es.len(),
{
    if es.len() == 0 {
        s
    } else {
        pushed(push_all(s, es.drop_last()), es.last())
    }
}

/// The tags handed out by `n` allocations in a row, and the state after them.
pub open spec fn allocate_n(s: TagPool, n: nat) -> (Seq<u32>, TagPool)
    decreases n,
{
    if n == 0 {
        (Seq::empty(), s)
    } else {
        let (tags, before) = allocate_n(s, (n - 1) as nat);
        let (tag, after) = allocated(before);
        (tags.push(tag), after)
    }
}

/// The state after recycling each tag of `tags` in order.
pub open spec fn free_all(s: TagPool, tags: Seq<u32>) -> TagPool
    decreases tags.len(),
{
    if tags.len() == 0 {
        s
    } else {
        freed(free_all(s, tags.drop_last()), tags.last())
    }
}

/// Scanning from `i`, the push slot is the first free slot `k`, or 0 when the slots from
/// `i` on are all live.
proof fn lemma_free_slot_from(t: Seq<Effect>, i: int, k: int)
    requires
        0 <= i <= k <= t.len(),
        forall|j: int| i <= j < k ==> !is_free(t[j]),
        k == t.len() || is_free(t[k]),
    ensures
        free_slot_from(t, i) == if k < t.len() {
            k
        } else {
            0
        },
    decreases k - i,
{
    if i < k {
        lemma_free_slot_from(t, i + 1, k);
    }
}

/// Pushing `k` live effects onto all-free slots fills slots `0..k` in order.
proof fn lemma_fill_in_order(s: Seq<Effect>, es: Seq<Effect>, k: int)
    requires
        s.len() == MAX_FX,
        forall|i: int| 0 <= i < MAX_FX ==> is_free(#[trigger] s[i]),
        0 <= k <= MAX_FX,
        k <= es.len(),
        forall|i: int| 0 <= i < es.len() ==> !is_free(#[trigger] es[i]),
    ensures
        push_all(s, es.take(k)).len() == MAX_FX,
        forall|i: int| 0 <= i < k ==> #[trigger] push_all(s, es.take(k))[i] == es[i],
        forall|i: int| k <= i < MAX_FX ==> #[trigger] push_all(s, es.take(k))[i] == s[i],
    decreases k,
{
    if k == 0 {
        assert(es.take(0) =~= Seq::<Effect>::empty());
    } else {
        lemma_fill_in_order(s, es, k - 1);
        let before = push_all(s, es.take(k - 1));
        assert(es.take(k).drop_last() =~= es.take(k - 1));
        assert forall|j: int| 0 <= j < k - 1 implies !is_free(before[j]) by {
            assert(!is_free(es[j]));
        }
        lemma_free_slot_from(before, 0, k - 1);
        assert(push_slot(before) == k - 1);
    }
}

/// Pushing `MAX_FX + 1` live effects, one after another, onto a stack whose slots are
/// all free: the first `MAX_FX` pushes fill the slots in order, and the last one
/// overwrites slot 0, so slot 0 holds the newest effect and every other slot the effect
/// of the same position.
pub proof fn lemma_push_past_capacity(s: Seq<Effect>, es: Seq<Effect>)
    requires
        s.len() == MAX_FX,
        forall|i: int| 0 <= i < MAX_FX ==> is_free(#[trigger] s[i]),
        es.len() == MAX_FX + 1,
        forall|i: int| 0 <= i < es.len() ==> !is_free(#[trigger] es[i]),
    ensures
        push_all(s, es)[0] == es[MAX_FX as int],
        forall|i: int| 1 <= i < MAX_FX ==> #[trigger] push_all(s, es)[i] == es[i],
{
    lemma_fill_in_order(s, es, MAX_FX as int);
    let full = push_all(s, es.take(MAX_FX as int));
    assert(es.drop_last() =~= es.take(MAX_FX as int));
    assert forall|j: int| 0 <= j < MAX_FX implies !is_free(full[j]) by {
        assert(!is_free(es[j]));
    }
    lemma_free_slot_from(full, 0, MAX_FX as int);
}

/// Allocating `j` tags with no recycled tag hands out consecutive never-used tags.
proof fn lemma_allocate_fresh(m: u32, j: nat)
    requires
        m + j <= u32::MAX,
    ensures
        allocate_n((m, Seq::empty()), j).0 =~= Seq::new(j, |i: int| (m + i) as u32),
        allocate_n((m, Seq::empty()), j).1 == ((m + j) as u32, Seq::<u32>::empty()),
    decreases j,
{
    if j > 0 {
        lemma_allocate_fresh(m, (j - 1) as nat);
    }
}

/// Recycling tags appends them to the queue in order.
proof fn lemma_free_all_appends(s: TagPool, tags: Seq<u32>)
    ensures
        free_all(s, tags) == (s.0, s.1 + tags),
    decreases tags.len(),
{
    if tags.len() > 0 {
        lemma_free_all_appends(s, tags.drop_last());
        assert(s.1 + tags.drop_last() + seq![tags.last()] =~= s.1 + tags);
    }
}

/// While recycled tags remain, allocations hand them out from the front of the queue.
proof fn lemma_allocate_recycled(m: u32, q: Seq<u32>, j: nat)
    requires
        j <= q.len(),
    ensures
        allocate_n((m, q), j).0 =~= q.take(j as int),
        allocate_n((m, q), j).1 == (m, q.skip(j as int)),
    decreases j,
{
    if j > 0 {
        lemma_allocate_recycled(m, q, (j - 1) as nat);
        assert(q.skip(j - 1).drop_first() =~= q.skip(j as int));
        assert(q.take(j - 1).push(q[j - 1]) =~= q.take(j as int));
    }
}

/// Allocating a tag, recycling it, and allocating again hands out the same tag, as
/// long as at most one tag was waiting for reuse at the start.
pub proof fn lemma_allocate_free_allocate(s: TagPool)
    requires
        s.1.len() <= 1,
        s.1.len() > 0 || s.0 < u32::MAX,
    ensures
        allocated(freed(allocated(s).1, allocated(s).0)).0 == allocated(s).0,
{
}

/// With no tag waiting for reuse, allocating `n` tags, recycling them in the order they
/// were handed out, and allocating `n` again hands them out in the same order.
pub proof fn lemma_reuse_is_first_in_first_out(s: TagPool, n: nat)
    requires
        s.1.len() == 0,
        s.0 + n <= u32::MAX,
    ensures
        allocate_n(free_all(allocate_n(s, n).1, allocate_n(s, n).0), n).0 == allocate_n(s, n).0,
{
    assert(s.1 =~= Seq::<u32>::empty());
    lemma_allocate_fresh(s.0, n);
    let (tags, after) = allocate_n(s, n);
    lemma_free_all_appends(after, tags);
    assert(after.1 + tags =~= tags);
    lemma_allocate_recycled(after.0, tags, n);
    assert(tags.take(n as int) =~= tags);
}

} // verus!
