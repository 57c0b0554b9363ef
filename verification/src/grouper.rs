//! Grouping: a sequence is cut into consecutive chunks of a fixed size, the
//! last of which holds what is left.

use vstd::prelude::*;
use vstd::slice::slice_subrange;

verus! {

/// The number of hours that the report shows side by side.
pub const HOURS_PER_ROW: usize = 6;

/// The number of chunks of `size` items that hold `len` items: `len / size`,
/// rounded up.
pub open spec fn chunk_count(len: nat, size: nat) -> nat {
    ((len + size - 1) / (size as int)) as nat
}

/// Where the chunk with index `k` ends.
pub open spec fn chunk_end(len: nat, size: nat, k: int) -> int {
    if (k + 1) * size <= len {
        (k + 1) * size
    } else {
        len as int
    }
}

/// The chunk with index `k`: the items from `k * size` up to the next
/// multiple of `size`, or up to the end where that comes first.
pub open spec fn chunk_of<T>(items: Seq<T>, size: nat, k: int) -> Seq<T> {
    items.subrange(k * size, chunk_end(items.len(), size, k))
}

/// `items` cut into consecutive chunks of `size` items; the last chunk holds
/// the remainder.
pub open spec fn grouped<T>(items: Seq<T>, size: nat) -> Seq<Seq<T>> {
    Seq::new(chunk_count(items.len(), size), |k: int| chunk_of(items, size, k))
}

/// The contents of a sequence of slices.
pub open spec fn slice_views<T>(chunks: Seq<&[T]>) -> Seq<Seq<T>> {
    Seq::new(chunks.len(), |k: int| chunks[k]@)
}

/// `k` chunks hold `len` items exactly when `len` lies above `k - 1` full
/// chunks and within `k` of them.
pub proof fn lemma_chunk_count(len: nat, size: nat, k: nat)
    requires
        size > 0,
        len <= k * size,
        k > 0 ==> (k - 1) * size < len,
    ensures
        chunk_count(len, size) == k,
{
    assert(chunk_count(len, size) == k) by (nonlinear_arith)
        requires
            size > 0,
            len <= k * size,
            k > 0 ==> (k - 1) * size < len,
            chunk_count(len, size) == ((len + size - 1) / (size as int)) as nat,
    ;
}

/// The number of chunks is `len / size` rounded up: the chunks cover the
/// items and the last one is needed.
pub proof fn lemma_chunk_count_bounds(len: nat, size: nat)
    requires
        size > 0,
    ensures
        len <= chunk_count(len, size) * size,
        len > 0 ==> (chunk_count(len, size) - 1) * size < len,
        len == 0 ==> chunk_count(len, size) == 0,
{
    let k = chunk_count(len, size);
    assert(len <= k * size && (len > 0 ==> (k - 1) * size < len) && (len == 0 ==> k == 0))
        by (nonlinear_arith)
        requires
            size > 0,
            k == ((len + size - 1) / (size as int)) as nat,
    ;
}

/// The shape of a grouping: every chunk but the last holds exactly `size`
/// items, the last holds the remainder of `len / size`, or `size` where
/// there is none, and no chunk is empty. Nothing gives no chunk.
pub proof fn lemma_group_shape<T>(items: Seq<T>, size: nat)
    requires
        size > 0,
    ensures
        grouped(items, size).len() == chunk_count(items.len(), size),
        items.len() == 0 ==> grouped(items, size).len() == 0,
        forall|k: int|
            0 <= k < grouped(items, size).len() - 1 ==> (#[trigger] grouped(items, size)[k]).len()
                == size,
        items.len() > 0 ==> grouped(items, size).last().len() == (if items.len() % size == 0 {
            size
        } else {
            items.len() % size
        }),
        forall|k: int|
            0 <= k < grouped(items, size).len() ==> (#[trigger] grouped(items, size)[k]).len() > 0,
{
    let len = items.len();
    let count = chunk_count(len, size);
    lemma_chunk_count_bounds(len, size);
    assert forall|k: int| 0 <= k < count - 1 implies (#[trigger] grouped(items, size)[k]).len()
        == size by {
        assert((k + 1) * size <= len && (k + 1) * size == k * size + size) by (nonlinear_arith)
            requires
                0 <= k < count - 1,
                (count - 1) * size < len,
                size > 0,
        ;
    }
    if len > 0 {
        let last = count - 1;
        assert(count > 0) by (nonlinear_arith)
            requires
                len > 0,
                len <= count * size,
        ;
        assert(grouped(items, size).last() == chunk_of(items, size, last));
        assert(len - last * size == (if len % size == 0 {
            size
        } else {
            len % size
        }) && (last + 1) * size >= len && last * size >= 0) by (nonlinear_arith)
            requires
                size > 0,
                len > 0,
                last == count - 1,
                len <= count * size,
                (count - 1) * size < len,
        ;
        if (last + 1) * size <= len {
            assert((last + 1) * size == len);
        }
    }
    assert forall|k: int| 0 <= k < count implies (#[trigger] grouped(items, size)[k]).len()
        > 0 by {
        assert(k * size < len && (k + 1) * size > k * size && k * size >= 0) by (nonlinear_arith)
            requires
                0 <= k < count,
                (count - 1) * size < len,
                size > 0,
        ;
    }
}

/// The chunks of a grouping, written one after another, are the items in
/// their order.
pub proof fn lemma_group_concat<T>(items: Seq<T>, size: nat)
    requires
        size > 0,
    ensures
        grouped(items, size).flatten() == items,
    decreases items.len(),
{
    let len = items.len();
    let whole = grouped(items, size);
    lemma_chunk_count_bounds(len, size);
    if len == 0 {
        assert(whole.flatten() =~= items);
    } else {
        let cut: nat = if size <= len {
            size
        } else {
            len
        };
        let tail = items.skip(cut as int);
        let count = chunk_count(len, size);
        assert(count >= 1);
        lemma_chunk_count_bounds(tail.len(), size);
        assert(chunk_count(tail.len(), size) == count - 1) by {
            if size <= len {
                assert((count - 1) * size == count * size - size && (count - 2) * size == count
                    * size - 2 * size) by (nonlinear_arith);
                if count >= 2 {
                    lemma_chunk_count(tail.len(), size, (count - 1) as nat);
                } else {
                    assert(count * size == size) by (nonlinear_arith)
                        requires
                            count == 1,
                    ;
                    lemma_chunk_count(tail.len(), size, 0);
                }
            } else {
                lemma_chunk_count(tail.len(), size, 0);
                lemma_chunk_count(len, size, 1);
            }
        }
        assert(whole[0] =~= items.take(cut as int)) by {
            assert(0 * size == 0 && (0 + 1) * size == size) by (nonlinear_arith);
        }
        assert(whole.drop_first() =~= grouped(tail, size)) by {
            assert forall|k: int| 0 <= k < count - 1 implies whole.drop_first()[k] == grouped(
                tail,
                size,
            )[k] by {
                assert((k + 1) * size == k * size + size && (k + 2) * size == k * size + 2 * size
                    && k * size >= 0) by (nonlinear_arith)
                    requires
                        k >= 0,
                ;
                assert(size <= len) by {
                    if size > len {
                        lemma_chunk_count(len, size, 1);
                    }
                }
                let from = k * size;
                let to = chunk_end(tail.len(), size, k);
                assert(chunk_end(len, size, k + 1) == to + size);
                assert(0 <= from <= to <= tail.len()) by (nonlinear_arith)
                    requires
                        0 <= k < count - 1,
                        from == k * size,
                        to == chunk_end(tail.len(), size, k),
                        (count - 2) * size < tail.len(),
                        size > 0,
                ;
                assert(chunk_of(items, size, k + 1) =~= chunk_of(tail, size, k));
            }
        }
        lemma_group_concat(tail, size);
        assert(whole.flatten() =~= whole[0] + whole.drop_first().flatten());
        assert(whole.flatten() =~= items);
    }
}

/// The item at place `i` of the chunk `k` is the item at place
/// `k * size + i` of the whole.
pub proof fn lemma_group_member<T>(items: Seq<T>, size: nat, k: int, i: int)
    requires
        size > 0,
        0 <= k < grouped(items, size).len(),
        0 <= i < grouped(items, size)[k].len(),
    ensures
        0 <= k * size + i < items.len(),
        grouped(items, size)[k][i] == items[k * size + i],
{
    lemma_chunk_count_bounds(items.len(), size);
    let count = chunk_count(items.len(), size);
    assert(0 <= k * size < items.len() && (k + 1) * size == k * size + size) by (nonlinear_arith)
        requires
            0 <= k < count,
            (count - 1) * size < items.len(),
            size > 0,
    ;
}

/// Every item lies in a chunk: the item at place `j` is the item at place
/// `j % size` of the chunk `j / size`.
pub proof fn lemma_group_covers<T>(items: Seq<T>, size: nat, j: int)
    requires
        size > 0,
        0 <= j < items.len(),
    ensures
        0 <= j / (size as int) < grouped(items, size).len(),
        0 <= j % (size as int) < grouped(items, size)[j / (size as int)].len(),
        grouped(items, size)[j / (size as int)][j % (size as int)] == items[j],
{
    lemma_chunk_count_bounds(items.len(), size);
    let count = chunk_count(items.len(), size);
    let k = j / (size as int);
    let i = j % (size as int);
    assert(0 <= k < count && 0 <= i < size && k * size + i == j && (k + 1) * size == k * size
        + size) by (nonlinear_arith)
        requires
            0 <= j < items.len(),
            items.len() <= count * size,
            size > 0,
            k == j / (size as int),
            i == j % (size as int),
    ;
}

/// Cuts `items` into consecutive chunks of `size` items, in their order; the
/// last chunk holds the remainder. No chunk is empty, and nothing gives no
/// chunk.
pub fn group<'a, T>(items: &'a [T], size: usize) -> (chunks: Vec<&'a [T]>)
    requires
        size > 0,
    ensures
        slice_views(chunks@) == grouped(items@, size as nat),
{
    let mut chunks: Vec<&'a [T]> = Vec::new();
    let mut start: usize = 0;
    proof {
        lemma_chunk_count(0, size as nat, 0);
        assert(0 * size == 0) by (nonlinear_arith);
    }
    while start < items.len()
        invariant
            size > 0,
            start <= items.len(),
            start < items.len() ==> start == chunks.len() * size,
            chunks.len() == chunk_count(start as nat, size as nat),
            forall|k: int|
                0 <= k < chunks.len() ==> (#[trigger] chunks[k])@ == chunk_of(
                    items@,
                    size as nat,
                    k,
                ),
        decreases items.len() - start,
    {
        let ghost k = chunks.len() as int;
        let end = if items.len() - start > size {
            start + size
        } else {
            items.len()
        };
        proof {
            assert((k + 1) * size == k * size + size) by (nonlinear_arith);
            assert(end == chunk_end(items@.len(), size as nat, k));
            if end < items.len() {
                lemma_chunk_count(end as nat, size as nat, (k + 1) as nat);
            } else {
                assert(k * size < end) by (nonlinear_arith)
                    requires
                        k * size == start,
                        start < end,
                ;
                lemma_chunk_count(end as nat, size as nat, (k + 1) as nat);
            }
        }
        chunks.push(slice_subrange(items, start, end));
        start = end;
    }
    proof {
        assert(start == items.len());
        assert(slice_views(chunks@) =~= grouped(items@, size as nat));
    }
    chunks
}

} // verus!
