//! The tight cursor: every index of a `[current, end)` range is visited
//! exactly once, from the front, from the back, or from both ends.

use crate::chunk::{Chunk1, ChunkExact1};
use crate::storage::{Key, StorageView};
use vstd::prelude::*;

verus! {

/// Tight iterator over a single component column.
///
/// A cursor owns a view handle and a half-open index range `[current, end)`.
/// `next` consumes the range from the front, `next_back` from the back; the
/// two may be interleaved freely and meet exactly once, at `current == end`,
/// which is the sole exhaustion condition. `split_at` partitions the range
/// into two independent cursors for parallel consumption.
pub struct Tight1<V: StorageView> {
    pub data: V,
    pub current: usize,
    pub end: usize,
}

impl<V: StorageView> Tight1<V> {
    /// The range invariant: `current <= end`, and `end` is in bounds for the
    /// column's items and identity keys. Every index the cursor ever reads
    /// lies in `[current, end)`, so in-bounds access follows from it.
    pub open spec fn wf(&self) -> bool {
        &&& self.current <= self.end
        &&& self.end <= self.data.items().len()
        &&& self.end <= self.data.ids().len()
    }

    /// The items the cursor has yet to yield, in forward (ascending index)
    /// order.
    pub open spec fn remaining_items(&self) -> Seq<V::Item> {
        self.data.items().subrange(self.current as int, self.end as int)
    }

    /// Lease a cursor over the rows `[current, end)` of a column view.
    pub fn new(data: V, current: usize, end: usize) -> (cursor: Self)
        requires
            current <= end,
            end <= data.items().len(),
            end <= data.ids().len(),
        ensures
            cursor.wf(),
            cursor.data == data,
            cursor.current == current,
            cursor.end == end,
    {
        Tight1 { data, current, end }
    }

    /// Exact number of items still to be yielded: `end - current`. No
    /// filtering ever occurs, so this is the exact remaining yield count,
    /// not a lower bound.
    pub fn len(&self) -> (n: usize)
        requires
            self.wf(),
        ensures
            n == self.end - self.current,
            n == self.remaining_items().len(),
    {
        self.end - self.current
    }

    /// The size bounds of the remaining yield: both bounds equal `len()`.
    pub fn size_hint(&self) -> (hint: (usize, Option<usize>))
        requires
            self.wf(),
        ensures
            hint.0 == self.end - self.current,
            hint.1 == Some((self.end - self.current) as usize),
    {
        (self.len(), Some(self.len()))
    }

    /// Forward step: yield the item at `current` together with its index and
    /// advance `current` by one; report exhaustion once `current == end`.
    pub fn first_pass(&mut self) -> (r: Option<(usize, V::Item)>)
        requires
            old(self).wf(),
        ensures
            final(self).wf(),
            final(self).data == old(self).data,
            final(self).end == old(self).end,
            old(self).current < old(self).end ==> {
                &&& final(self).current == old(self).current + 1
                &&& r == Some((old(self).current, old(self).data.items()[old(self).current as int]))
            },
            old(self).current >= old(self).end ==> *final(self) == *old(self) && r is None,
    {
        let current = self.current;
        if current < self.end {
            self.current += 1;
            let data = self.data.get_item(current);
            Some((current, data))
        } else {
            None
        }
    }

    /// Second phase of a forward step; for this cursor it passes the item
    /// through unchanged.
    pub fn post_process(&mut self, pair: (usize, V::Item)) -> (r: Option<V::Item>)
        ensures
            *final(self) == *old(self),
            r == Some(pair.1),
    {
        Some(pair.1)
    }

    /// Yield the item at `current` and advance `current` by one; report
    /// exhaustion once `current == end`. Forward order is ascending index.
    pub fn next(&mut self) -> (r: Option<V::Item>)
        requires
            old(self).wf(),
        ensures
            final(self).wf(),
            final(self).data == old(self).data,
            final(self).end == old(self).end,
            old(self).current < old(self).end ==> {
                &&& final(self).current == old(self).current + 1
                &&& r == Some(old(self).data.items()[old(self).current as int])
            },
            old(self).current >= old(self).end ==> *final(self) == *old(self) && r is None,
    {
        let first = match self.first_pass() {
            Some(pair) => pair,
            None => {
                return None;
            },
        };
        self.post_process(first)
    }

    /// Yield the item at `end - 1` and decrement `end` by one; report
    /// exhaustion once `current == end`. Reverse order is descending index;
    /// interleaving with `next` is legal, and the two ends meeting is the
    /// sole termination condition, so no index is ever yielded twice.
    pub fn next_back(&mut self) -> (r: Option<V::Item>)
        requires
            old(self).wf(),
        ensures
            final(self).wf(),
            final(self).data == old(self).data,
            final(self).current == old(self).current,
            old(self).current < old(self).end ==> {
                &&& final(self).end + 1 == old(self).end
                &&& r == Some(old(self).data.items()[old(self).end - 1])
            },
            old(self).current >= old(self).end ==> *final(self) == *old(self) && r is None,
    {
        if self.end > self.current {
            self.end -= 1;
            Some(self.data.get_item(self.end))
        } else {
            None
        }
    }

    /// The identity key of the most recently yielded forward item, the row
    /// at index `current - 1`. Asking before anything has been yielded
    /// forward is a programmer error, excluded by precondition.
    pub fn last_id(&self) -> (key: Key)
        requires
            self.wf(),
            self.current >= 1,
        ensures
            key == self.data.ids()[self.current - 1],
    {
        self.data.get_identity(self.current - 1)
    }

    /// Partition the cursor at `index`: the left piece keeps
    /// `[current, current + index)`, the right piece owns
    /// `[current + index, end)`, and both share the same column through a
    /// shallow duplicate of the view handle.
    ///
    /// Law: the two ranges are disjoint and contiguous and their union is
    /// the original range, so the left piece's full forward yield followed
    /// by the right piece's equals the undivided cursor's full forward
    /// yield. Each piece is an independent, fully valid cursor.
    pub fn split_at(self, index: usize) -> (pieces: (Self, Self))
        requires
            self.wf(),
            index <= self.end - self.current,
        ensures
            pieces.0.wf(),
            pieces.1.wf(),
            pieces.0.data == self.data,
            pieces.1.data.items() == self.data.items(),
            pieces.1.data.ids() == self.data.ids(),
            pieces.0.current == self.current,
            pieces.0.end == self.current + index,
            pieces.1.current == self.current + index,
            pieces.1.end == self.end,
            pieces.0.remaining_items().len() == index,
            pieces.1.remaining_items().len() == self.end - self.current - index,
            pieces.0.remaining_items() + pieces.1.remaining_items() == self.remaining_items(),
    {
        let clone = Tight1 { data: self.data.dup(), current: self.current + index, end: self.end };
        let left = Tight1 { data: self.data, current: self.current, end: self.current + index };
        proof {
            assert(left.remaining_items() + clone.remaining_items() =~= self.remaining_items());
        }
        (left, clone)
    }

    /// Transform the cursor into a chunk iterator, returning `size` items at
    /// a time. The conversion is one-way and consuming: it transfers the
    /// view handle and the `[current, end)` range and attaches the step.
    ///
    /// The chunk iterator returns a smaller group at the end if `size` does
    /// not divide the range length exactly.
    pub fn into_chunk(self, size: usize) -> (chunks: Chunk1<V>)
        requires
            self.wf(),
            size >= 1,
        ensures
            chunks.wf(),
            chunks.data == self.data,
            chunks.current == self.current,
            chunks.end == self.end,
            chunks.step == size,
            chunks.remaining_items() == self.remaining_items(),
    {
        Chunk1 { data: self.data, current: self.current, end: self.end, step: size }
    }

    /// Transform the cursor into a chunk-exact iterator, returning `size`
    /// items at a time. The conversion is one-way and consuming: it
    /// transfers the view handle and the `[current, end)` range and attaches
    /// the step.
    ///
    /// The chunk-exact iterator always returns groups of exactly `size`
    /// items; the leftover items are reached through its `remainder` method.
    pub fn into_chunk_exact(self, size: usize) -> (chunks: ChunkExact1<V>)
        requires
            self.wf(),
            size >= 1,
        ensures
            chunks.wf(),
            chunks.data == self.data,
            chunks.current == self.current,
            chunks.end == self.end,
            chunks.step == size,
            chunks.remaining_items() == self.remaining_items(),
    {
        ChunkExact1 { data: self.data, current: self.current, end: self.end, step: size }
    }

    /// A cursor is its own forward iterator.
    pub fn into_iter(self) -> (r: Self)
        ensures
            r == self,
    {
        self
    }

    /// Consume the cursor forward to the end, collecting every yielded item.
    ///
    /// Law: full forward consumption of a range `[current, end)` produces
    /// exactly `end - current` items, the column's items of that range in
    /// ascending index order; at every intermediate point the number of
    /// items still owed equals `len()`.
    pub fn collect_forward(self) -> (out: Vec<V::Item>)
        requires
            self.wf(),
        ensures
            out@ == self.remaining_items(),
            out@.len() == self.end - self.current,
    {
        let mut cursor = self;
        let ghost start = cursor;
        let mut out: Vec<V::Item> = Vec::new();
        while cursor.current < cursor.end
            invariant
                cursor.wf(),
                cursor.data == start.data,
                cursor.end == start.end,
                start.current <= cursor.current,
                out@ =~= start.data.items().subrange(start.current as int, cursor.current as int),
            decreases cursor.end - cursor.current,
        {
            match cursor.next() {
                Some(item) => {
                    out.push(item);
                },
                None => {
                    proof {
                        assert(false);
                    }
                },
            }
        }
        proof {
            assert(out@ =~= start.remaining_items());
        }
        out
    }
}

/// Law: interleaving forward and reverse consumption never yields the same
/// row index twice and never yields an index outside the original range.
///
/// `next` yields index `current` and then increases `current` by one;
/// `next_back` yields index `end - 1` and then decreases `end` by one. So
/// after any interleaving that began with the range `[start, stop)`, the
/// forward yields are exactly the indices of `[start, current)` and the
/// reverse yields exactly those of `[end, stop)` for the cursor's present
/// `current` and `end`. While the invariant `current <= end` holds, every
/// index `i` of either band lies inside the original range and no index is
/// in both bands.
pub proof fn lemma_interleaved_yields_distinct(start: int, current: int, end: int, stop: int, i: int)
    requires
        start <= current,
        current <= end,
        end <= stop,
    ensures
        start <= i < current ==> start <= i < stop,
        end <= i < stop ==> start <= i < stop,
        !(start <= i < current && end <= i < stop),
{
}

} // verus!
