//! The Partition Table: a single flattened vector plus one `Partition` per
//! input chunk, in input order. Offsets are contiguous from zero, so no two
//! partitions overlap and re-slicing by a partition reproduces its chunk.

use crate::partition::Partition;
use vstd::prelude::*;

verus! {

/// Sum of the `size` fields of a sequence of partitions.
pub open spec fn sum_of_sizes(parts: Seq<Partition<usize>>) -> int
    decreases parts.len(),
{
    if parts.len() == 0 {
        0
    } else {
        sum_of_sizes(parts.drop_last()) + parts.last().size
    }
}

/// An ordered sequence of logical chunks flattened into one vector, with a
/// parallel table of `Partition{size, offset}`, one per chunk, in input order.
pub struct Linear2dVec<T> {
    data: Vec<T>,
    parts: Vec<Partition<usize>>,
}

impl<T> Linear2dVec<T> {
    /// The flattened data as a sequence.
    pub closed spec fn spec_data(self) -> Seq<T> {
        self.data@
    }

    /// The partition table as a sequence.
    pub closed spec fn spec_parts(self) -> Seq<Partition<usize>> {
        self.parts@
    }

    /// Well-formed: partitions tile the data contiguously from offset zero.
    pub open spec fn wf(self) -> bool {
        &&& (self.spec_parts().len() > 0 ==> self.spec_parts()[0].offset == 0)
        &&& (forall|i: int|
            #![trigger self.spec_parts()[i]]
            1 <= i < self.spec_parts().len() ==> self.spec_parts()[i].offset
                == self.spec_parts()[i - 1].offset + self.spec_parts()[i - 1].size)
        &&& (if self.spec_parts().len() == 0 {
            self.spec_data().len() == 0
        } else {
            self.spec_parts().last().offset + self.spec_parts().last().size
                == self.spec_data().len()
        })
    }

    /// The slice of the flattened data described by partition `i`.
    pub open spec fn chunk(self, i: int) -> Seq<T>
        recommends
            0 <= i < self.spec_parts().len(),
            self.wf(),
    {
        self.spec_data().subrange(
            self.spec_parts()[i].offset as int,
            self.spec_parts()[i].offset + self.spec_parts()[i].size,
        )
    }

    /// Flattens an ordered sequence of chunks. The resulting table has one
    /// partition per chunk, in input order; the total length equals the sum of
    /// the input lengths, offsets are contiguous from zero, and re-slicing the
    /// flattened data by partition `i` gives back input chunk `i` exactly.
    #[verifier::rlimit(30)]
    pub fn from_vec(v: Vec<Vec<T>>) -> (r: Self)
        ensures
            r.wf(),
            r.spec_parts().len() == v@.len(),
            forall|i: int| 0 <= i < v@.len() ==> (#[trigger] r.spec_parts()[i]).size
                == v@[i]@.len(),
            forall|i: int| 0 <= i < v@.len() ==> #[trigger] r.chunk(i) == v@[i]@,
    {
        let ghost orig = v@;
        let mut rest = v;
        let mut data: Vec<T> = Vec::new();
        let mut parts: Vec<Partition<usize>> = Vec::new();
        while rest.len() > 0
            invariant
                parts@.len() + rest@.len() == orig.len(),
                rest@ == orig.subrange(parts@.len() as int, orig.len() as int),
                parts@.len() > 0 ==> parts@[0].offset == 0,
                forall|i: int|
                    #![trigger parts@[i]]
                    1 <= i < parts@.len() ==> parts@[i].offset
                        == parts@[i - 1].offset + parts@[i - 1].size,
                if parts@.len() == 0 {
                    data@.len() == 0
                } else {
                    parts@.last().offset + parts@.last().size == data@.len()
                },
                forall|i: int| 0 <= i < parts@.len() ==> (#[trigger] parts@[i]).size
                    == orig[i]@.len(),
                forall|i: int| 0 <= i < parts@.len() ==> (#[trigger] parts@[i]).offset
                    + parts@[i].size <= data@.len(),
                forall|i: int| 0 <= i < parts@.len() ==> #[trigger] data@.subrange(
                    parts@[i].offset as int,
                    parts@[i].offset + parts@[i].size,
                ) == orig[i]@,
            decreases rest@.len(),
        {
            let ghost k = parts@.len() as int;
            let ghost old_data = data@;
            let mut chunk = rest.remove(0);
            proof {
                assert(chunk@ == orig[k]@);
                assert(rest@ =~= orig.subrange(k + 1, orig.len() as int));
            }
            let p = Partition::new(chunk.len(), data.len());
            parts.push(p);
            data.append(&mut chunk);
            proof {
                assert forall|i: int| 0 <= i < parts@.len() implies #[trigger] data@.subrange(
                    parts@[i].offset as int,
                    parts@[i].offset + parts@[i].size,
                ) == orig[i]@ by {
                    if i < k {
                        assert(data@.subrange(
                            parts@[i].offset as int,
                            parts@[i].offset + parts@[i].size,
                        ) =~= old_data.subrange(
                            parts@[i].offset as int,
                            parts@[i].offset + parts@[i].size,
                        ));
                    } else {
                        assert(data@.subrange(
                            parts@[i].offset as int,
                            parts@[i].offset + parts@[i].size,
                        ) =~= orig[k]@);
                    }
                }
            }
        }
        Self { data, parts }
    }

    /// Length of the flattened data.
    pub fn len(&self) -> (r: usize)
        ensures
            r == self.spec_data().len(),
    {
        self.data.len()
    }

    /// An iterator over the partition sizes, in table order.
    pub fn sizes<'a>(&'a self) -> (it: SizesIter<'a, T>)
        ensures
            it.spec_vec() == *self,
            it.spec_pos() == 0,
    {
        SizesIter { vec: self, i: 0 }
    }

    /// Byte/element offset of partition `i`.
    pub fn offset(&self, i: usize) -> (r: usize)
        requires
            i < self.spec_parts().len(),
        ensures
            r == self.spec_parts()[i as int].offset,
    {
        self.parts[i].offset
    }

    /// Partition `i` of the table.
    pub fn part(&self, i: usize) -> (r: Partition<usize>)
        requires
            i < self.spec_parts().len(),
        ensures
            r == self.spec_parts()[i as int],
    {
        self.parts[i]
    }

    /// The whole partition table.
    pub fn parts(&self) -> (r: &Vec<Partition<usize>>)
        ensures
            r@ == self.spec_parts(),
    {
        &self.parts
    }

    /// A copy of the partition table, for callers that walk it.
    pub fn parts_iter(&self) -> (r: Vec<Partition<usize>>)
        ensures
            r@ == self.spec_parts(),
    {
        let mut out: Vec<Partition<usize>> = Vec::new();
        let mut idx: usize = 0;
        while idx < self.parts.len()
            invariant
                idx <= self.parts@.len(),
                out@ == self.parts@.subrange(0, idx as int),
            decreases self.parts@.len() - idx,
        {
            out.push(self.parts[idx]);
            idx = idx + 1;
            proof {
                assert(out@ =~= self.parts@.subrange(0, idx as int));
            }
        }
        proof {
            assert(out@ =~= self.parts@);
        }
        out
    }

    /// The partition table, consuming the container.
    pub fn into_parts_iter(self) -> (r: Vec<Partition<usize>>)
        ensures
            r@ == self.spec_parts(),
    {
        self.parts
    }

    /// The flattened data, for callers that walk or upload it.
    pub fn iter(&self) -> (r: &Vec<T>)
        ensures
            r@ == self.spec_data(),
    {
        &self.data
    }

    /// Splits the container into its flattened data and partition table.
    pub fn deconstruct(self) -> (r: (Vec<T>, Vec<Partition<usize>>))
        ensures
            r.0@ == self.spec_data(),
            r.1@ == self.spec_parts(),
    {
        (self.data, self.parts)
    }
}

/// Walks the `size` fields of a `Linear2dVec`'s partition table in order.
pub struct SizesIter<'a, T> {
    vec: &'a Linear2dVec<T>,
    i: usize,
}

impl<'a, T> SizesIter<'a, T> {
    /// The table being walked.
    pub closed spec fn spec_vec(self) -> Linear2dVec<T> {
        *self.vec
    }

    /// How many sizes have been handed out.
    pub closed spec fn spec_pos(self) -> int {
        self.i as int
    }

    /// The next partition size, or `None` when the table is exhausted.
    pub fn next(&mut self) -> (r: Option<usize>)
        ensures
            final(self).spec_vec() == old(self).spec_vec(),
            old(self).spec_pos() < old(self).spec_vec().spec_parts().len() ==> {
                &&& r == Some(
                    old(self).spec_vec().spec_parts()[old(self).spec_pos()].size,
                )
                &&& final(self).spec_pos() == old(self).spec_pos() + 1
            },
            old(self).spec_pos() >= old(self).spec_vec().spec_parts().len() ==> {
                &&& r is None
                &&& final(self).spec_pos() == old(self).spec_pos()
            },
    {
        if self.i < self.vec.parts.len() {
            let size = self.vec.parts[self.i].size;
            self.i = self.i + 1;
            Some(size)
        } else {
            None
        }
    }

    /// How many sizes are still to come.
    pub fn remaining(&self) -> (r: usize)
        ensures
            r == if self.spec_pos() <= self.spec_vec().spec_parts().len() {
                self.spec_vec().spec_parts().len() - self.spec_pos()
            } else {
                0
            },
    {
        if self.i <= self.vec.parts.len() {
            self.vec.parts.len() - self.i
        } else {
            0
        }
    }
}

/// The sum of the sizes of a contiguous table equals its final extent.
proof fn lemma_contiguous_sum(parts: Seq<Partition<usize>>)
    requires
        parts.len() > 0 ==> parts[0].offset == 0,
        forall|i: int|
            #![trigger parts[i]]
            1 <= i < parts.len() ==> parts[i].offset
                == parts[i - 1].offset + parts[i - 1].size,
    ensures
        sum_of_sizes(parts) == if parts.len() == 0 {
            0int
        } else {
            parts.last().offset + parts.last().size
        },
    decreases parts.len(),
{
    if parts.len() > 0 {
        let prefix = parts.drop_last();
        assert(forall|i: int|
            #![trigger prefix[i]]
            1 <= i < prefix.len() ==> prefix[i] == parts[i]);
        lemma_contiguous_sum(prefix);
    }
}

/// Earlier partitions of a contiguous table end no later than later ones begin.
proof fn lemma_offsets_monotonic(parts: Seq<Partition<usize>>, i: int, j: int)
    requires
        forall|k: int|
            #![trigger parts[k]]
            1 <= k < parts.len() ==> parts[k].offset
                == parts[k - 1].offset + parts[k - 1].size,
        0 <= i < j < parts.len(),
    ensures
        parts[i].offset + parts[i].size <= parts[j].offset,
    decreases j - i,
{
    if j > i + 1 {
        lemma_offsets_monotonic(parts, i, j - 1);
    }
}

/// Total length of a sequence of chunks.
pub open spec fn chunks_total_len<T>(chunks: Seq<Seq<T>>) -> int
    decreases chunks.len(),
{
    if chunks.len() == 0 {
        0
    } else {
        chunks_total_len(chunks.drop_last()) + chunks.last().len()
    }
}

/// A table whose partition sizes match a chunk sequence element for element
/// has the chunks' total length as its size sum.
pub proof fn lemma_sizes_sum_to_chunk_lengths<T>(
    parts: Seq<Partition<usize>>,
    chunks: Seq<Seq<T>>,
)
    requires
        parts.len() == chunks.len(),
        forall|i: int| 0 <= i < parts.len() ==> (#[trigger] parts[i]).size == chunks[i].len(),
    ensures
        sum_of_sizes(parts) == chunks_total_len(chunks),
    decreases parts.len(),
{
    if parts.len() > 0 {
        let pp = parts.drop_last();
        let cp = chunks.drop_last();
        assert(forall|i: int| 0 <= i < pp.len() ==> (#[trigger] pp[i]).size == cp[i].len());
        lemma_sizes_sum_to_chunk_lengths(pp, cp);
    }
}

/// Law of the Partition Table: for every well-formed table, the partition
/// sizes sum to the length of the flattened data, and no two partitions
/// overlap (each one ends no later than any later one begins).
pub proof fn lemma_partition_table_consistent<T>(l: Linear2dVec<T>)
    requires
        l.wf(),
    ensures
        sum_of_sizes(l.spec_parts()) == l.spec_data().len(),
        forall|i: int, j: int|
            0 <= i < j < l.spec_parts().len()
                ==> (#[trigger] l.spec_parts()[i]).offset + l.spec_parts()[i].size
                <= (#[trigger] l.spec_parts()[j]).offset,
{
    lemma_contiguous_sum(l.spec_parts());
    assert forall|i: int, j: int|
        0 <= i < j < l.spec_parts().len() implies (#[trigger] l.spec_parts()[i]).offset
        + l.spec_parts()[i].size <= (#[trigger] l.spec_parts()[j]).offset by {
        lemma_offsets_monotonic(l.spec_parts(), i, j);
    }
}

} // verus!
