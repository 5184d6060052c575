//! Chunked views derived from a tight cursor: fixed-size groups of rows.
//!
//! [`Chunk1`] yields successive groups of `step` items, the final group
//! possibly shorter; [`ChunkExact1`] yields only full-size groups and leaves
//! the trailing partial group to its `remainder` accessor.

use crate::storage::StorageView;
use vstd::arithmetic::div_mod::lemma_fundamental_div_mod_converse;
use vstd::prelude::*;

verus! {

/// The concatenation of a sequence of chunks, in order.
pub open spec fn concat_of<T>(chunks: Seq<Vec<T>>) -> Seq<T> {
    chunks.map_values(|c: Vec<T>| c@).flatten()
}

/// Appending one chunk appends its contents to the concatenation.
pub proof fn lemma_concat_push<T>(chunks: Seq<Vec<T>>, chunk: Vec<T>)
    ensures
        concat_of(chunks.push(chunk)) == concat_of(chunks) + chunk@,
{
    broadcast use Seq::lemma_flatten_push;
    broadcast use Seq::lemma_push_map_commute;

    assert(concat_of(chunks.push(chunk)) =~= concat_of(chunks) + chunk@);
}

/// Chunk iterator over a single component column: yields `step` items at a
/// time as one group, and a smaller final group if `step` does not divide
/// the range length exactly.
pub struct Chunk1<V: StorageView> {
    pub data: V,
    pub current: usize,
    pub end: usize,
    pub step: usize,
}

impl<V: StorageView> Chunk1<V> {
    /// The range invariant of the underlying cursor, plus a positive step.
    pub open spec fn wf(&self) -> bool {
        &&& self.current <= self.end
        &&& self.end <= self.data.items().len()
        &&& self.step >= 1
    }

    /// The items the view has yet to yield, in forward order.
    pub open spec fn remaining_items(&self) -> Seq<V::Item> {
        self.data.items().subrange(self.current as int, self.end as int)
    }

    /// Where the next chunk would stop: `current + step`, capped at `end`.
    pub open spec fn next_upper(&self) -> int {
        if self.end - self.current <= self.step {
            self.end as int
        } else {
            self.current + self.step
        }
    }

    /// Yield the chunk `[current, upper)` for `upper = min(current + step,
    /// end)` and advance `current` to `upper`; report exhaustion once
    /// `current == end`. A chunk is shorter than `step` only when it is the
    /// last one, and what was yielded plus what remains is always exactly
    /// the range the view held before the call.
    pub fn next(&mut self) -> (r: Option<Vec<V::Item>>)
        requires
            old(self).wf(),
        ensures
            final(self).wf(),
            final(self).data == old(self).data,
            final(self).end == old(self).end,
            final(self).step == old(self).step,
            old(self).current < old(self).end ==> {
                &&& final(self).current == old(self).next_upper()
                &&& r matches Some(chunk) && chunk@ == old(self).data.items().subrange(
                    old(self).current as int,
                    old(self).next_upper(),
                ) && 1 <= chunk@.len() <= old(self).step && (chunk@.len() == old(self).step
                    || final(self).current == final(self).end) && old(self).remaining_items()
                    == chunk@ + final(self).remaining_items()
            },
            old(self).current >= old(self).end ==> *final(self) == *old(self) && r is None,
    {
        if self.current < self.end {
            let upper = if self.end - self.current <= self.step {
                self.end
            } else {
                self.current + self.step
            };
            let mut chunk: Vec<V::Item> = Vec::new();
            let mut i = self.current;
            while i < upper
                invariant
                    self.wf(),
                    self.current <= i <= upper <= self.end,
                    chunk@ =~= self.data.items().subrange(self.current as int, i as int),
                decreases upper - i,
            {
                chunk.push(self.data.get_item(i));
                i += 1;
            }
            proof {
                assert(old(self).remaining_items() =~= chunk@ + self.data.items().subrange(
                    upper as int,
                    self.end as int,
                ));
            }
            self.current = upper;
            Some(chunk)
        } else {
            None
        }
    }

    /// Consume the view to the end, collecting every chunk.
    ///
    /// Law: concatenating all chunk outputs reconstructs the original
    /// `[current, end)` item sequence exactly, with every chunk but
    /// possibly the last of size `step`; the last chunk is nonempty, and it
    /// is short exactly when `step` does not divide the range length.
    pub fn collect_chunks(self) -> (out: Vec<Vec<V::Item>>)
        requires
            self.wf(),
        ensures
            concat_of(out@) == self.remaining_items(),
            forall|k: int|
                0 <= k < out@.len() - 1 ==> (#[trigger] out@[k])@.len() == self.step,
            out@.len() > 0 ==> 1 <= out@.last()@.len() <= self.step,
            out@.len() > 0 ==> (out@.last()@.len() == self.step <==> (self.end - self.current) % (
            self.step as int) == 0),
            out@.len() == 0 <==> self.current == self.end,
    {
        let mut view = self;
        let ghost start = view;
        let mut out: Vec<Vec<V::Item>> = Vec::new();
        while view.current < view.end
            invariant
                view.wf(),
                view.data == start.data,
                view.end == start.end,
                view.step == start.step,
                start.current <= view.current,
                concat_of(out@) =~= start.data.items().subrange(
                    start.current as int,
                    view.current as int,
                ),
                forall|k: int|
                    0 <= k < out@.len() - 1 ==> (#[trigger] out@[k])@.len() == start.step,
                out@.len() > 0 ==> 1 <= out@.last()@.len() <= start.step,
                out@.len() > 0 && view.current < view.end ==> out@.last()@.len() == start.step,
                out@.len() > 0 ==> view.current - start.current == (out@.len() - 1) * start.step
                    + out@.last()@.len(),
                out@.len() == 0 <==> view.current == start.current,
            decreases view.end - view.current,
        {
            let ghost before = out@;
            match view.next() {
                Some(chunk) => {
                    proof {
                        lemma_concat_push(before, chunk);
                        if before.len() > 0 {
                            assert(before.len() * start.step == (before.len() - 1) * start.step
                                + start.step) by (nonlinear_arith);
                        }
                    }
                    out.push(chunk);
                },
                None => {
                    proof {
                        assert(false);
                    }
                },
            }
        }
        proof {
            assert(concat_of(out@) =~= start.remaining_items());
            if out@.len() > 0 {
                let count = out@.len() as int;
                let last_len = out@.last()@.len() as int;
                if last_len == start.step {
                    assert(count * start.step == (count - 1) * start.step + start.step)
                        by (nonlinear_arith);
                    lemma_fundamental_div_mod_converse(
                        start.end - start.current,
                        start.step as int,
                        count,
                        0,
                    );
                } else {
                    lemma_fundamental_div_mod_converse(
                        start.end - start.current,
                        start.step as int,
                        count - 1,
                        last_len,
                    );
                }
            }
        }
        out
    }
}

/// Chunk-exact iterator over a single component column: yields only groups
/// of exactly `step` items; the trailing partial group, if any, is reached
/// through [`ChunkExact1::remainder`].
pub struct ChunkExact1<V: StorageView> {
    pub data: V,
    pub current: usize,
    pub end: usize,
    pub step: usize,
}

impl<V: StorageView> ChunkExact1<V> {
    /// The range invariant of the underlying cursor, plus a positive step.
    pub open spec fn wf(&self) -> bool {
        &&& self.current <= self.end
        &&& self.end <= self.data.items().len()
        &&& self.step >= 1
    }

    /// The items the view has yet to hand out, in forward order.
    pub open spec fn remaining_items(&self) -> Seq<V::Item> {
        self.data.items().subrange(self.current as int, self.end as int)
    }

    /// Yield the chunk `[current, current + step)` and advance `current` by
    /// `step`; report exhaustion as soon as fewer than `step` items remain,
    /// even if a shorter remainder exists.
    pub fn next(&mut self) -> (r: Option<Vec<V::Item>>)
        requires
            old(self).wf(),
        ensures
            final(self).wf(),
            final(self).data == old(self).data,
            final(self).end == old(self).end,
            final(self).step == old(self).step,
            old(self).end - old(self).current >= old(self).step ==> {
                &&& final(self).current == old(self).current + old(self).step
                &&& r matches Some(chunk) && chunk@ == old(self).data.items().subrange(
                    old(self).current as int,
                    old(self).current + old(self).step,
                ) && chunk@.len() == old(self).step && old(self).remaining_items() == chunk@
                    + final(self).remaining_items()
            },
            old(self).end - old(self).current < old(self).step ==> *final(self) == *old(self)
                && r is None,
    {
        if self.end - self.current >= self.step {
            let upper = self.current + self.step;
            let mut chunk: Vec<V::Item> = Vec::new();
            let mut i = self.current;
            while i < upper
                invariant
                    self.wf(),
                    self.current <= i <= upper <= self.end,
                    chunk@ =~= self.data.items().subrange(self.current as int, i as int),
                decreases upper - i,
            {
                chunk.push(self.data.get_item(i));
                i += 1;
            }
            proof {
                assert(old(self).remaining_items() =~= chunk@ + self.data.items().subrange(
                    upper as int,
                    self.end as int,
                ));
            }
            self.current = upper;
            Some(chunk)
        } else {
            None
        }
    }

    /// The trailing `[current, end)` items left unconsumed so far. This is a
    /// snapshot accessor: it does not advance the view, and once main
    /// iteration is exhausted it holds fewer than `step` items.
    pub fn remainder(&self) -> (rem: Vec<V::Item>)
        requires
            self.wf(),
        ensures
            rem@ == self.remaining_items(),
    {
        let mut rem: Vec<V::Item> = Vec::new();
        let mut i = self.current;
        while i < self.end
            invariant
                self.wf(),
                self.current <= i <= self.end,
                rem@ =~= self.data.items().subrange(self.current as int, i as int),
            decreases self.end - i,
        {
            rem.push(self.data.get_item(i));
            i += 1;
        }
        rem
    }

    /// Consume the main iteration to exhaustion, collecting every full-size
    /// chunk.
    ///
    /// Law: concatenating all chunk outputs plus the remainder reconstructs
    /// the original `[current, end)` item sequence exactly; every chunk has
    /// size `step`, there are `(end - current) / step` of them, and the
    /// remainder holds `(end - current) % step` items, always fewer than
    /// `step`.
    pub fn collect_exact(&mut self) -> (out: Vec<Vec<V::Item>>)
        requires
            old(self).wf(),
        ensures
            final(self).wf(),
            final(self).data == old(self).data,
            final(self).end == old(self).end,
            final(self).step == old(self).step,
            concat_of(out@) + final(self).remaining_items() == old(self).remaining_items(),
            forall|k: int| 0 <= k < out@.len() ==> (#[trigger] out@[k])@.len() == old(self).step,
            final(self).remaining_items().len() < old(self).step,
            final(self).remaining_items().len() == (old(self).end - old(self).current) % (
            old(self).step as int),
            out@.len() == (old(self).end - old(self).current) / (old(self).step as int),
    {
        let ghost start = *self;
        let mut out: Vec<Vec<V::Item>> = Vec::new();
        while self.end - self.current >= self.step
            invariant
                self.wf(),
                self.data == start.data,
                self.end == start.end,
                self.step == start.step,
                start.current <= self.current,
                concat_of(out@) =~= start.data.items().subrange(
                    start.current as int,
                    self.current as int,
                ),
                forall|k: int| 0 <= k < out@.len() ==> (#[trigger] out@[k])@.len() == start.step,
                self.current == start.current + out@.len() * start.step,
            decreases self.end - self.current,
        {
            let ghost before = out@;
            let ghost count = out@.len() as int;
            match self.next() {
                Some(chunk) => {
                    proof {
                        lemma_concat_push(before, chunk);
                        assert((count + 1) * start.step == count * start.step + start.step)
                            by (nonlinear_arith);
                    }
                    out.push(chunk);
                },
                None => {
                    proof {
                        assert(false);
                    }
                },
            }
        }
        proof {
            assert(concat_of(out@) + self.remaining_items() =~= start.remaining_items());
            lemma_fundamental_div_mod_converse(
                start.end - start.current,
                start.step as int,
                out@.len() as int,
                self.end - self.current,
            );
        }
        out
    }
}

} // verus!
