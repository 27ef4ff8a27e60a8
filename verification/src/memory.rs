//! Device-memory allocation planning: packs many logically distinct buffers
//! into one physical allocation. Given each buffer's reported size, alignment
//! and memory-type compatibility mask, the planner takes the maximum of all
//! alignments and the intersection of all compatibility masks, rounds every
//! size up to the common alignment, lays the buffers out by running sum, and
//! selects the lowest-index memory type that is both compatible and has every
//! required property flag. The graphics-API calls that query requirements,
//! allocate and bind are the caller's; the plan itself is exact.

use vstd::arithmetic::div_mod::{lemma_fundamental_div_mod, lemma_mod_multiples_basic};
use vstd::arithmetic::mul::lemma_mul_is_distributive_add;
use vstd::arithmetic::power2::is_pow2;
use vstd::prelude::*;

verus! {

/// What the graphics API reports for one buffer: its required byte size, its
/// required alignment (a power of two), and the bitmask of memory types that
/// can back it.
#[derive(Clone, Copy, Debug)]
pub struct BufferMemoryRequirements {
    pub size: u64,
    pub alignment: u64,
    pub memory_type_bits: u32,
}

/// Why an allocation cannot be planned. `NoCompatibleMemoryType` is a
/// configuration error: the device offers no memory type that serves every
/// buffer with the required properties. `SizeOverflow` means the summed,
/// aligned sizes do not fit the byte-size domain.
#[derive(Clone, Copy, PartialEq, Eq, Structural, Debug)]
pub enum AllocationError {
    NoCompatibleMemoryType,
    SizeOverflow,
}

/// A complete allocation plan: one byte offset per buffer (in input order),
/// the total allocation size, the chosen memory type, the common alignment,
/// and the intersection of the buffers' compatibility masks.
#[derive(Debug)]
pub struct AllocationPlan {
    pub offsets: Vec<u64>,
    pub total_size: u64,
    pub memory_type_index: u32,
    pub alignment: u64,
    pub memory_type_bits: u32,
}

/// The maximum of the buffers' alignments (zero when there are no buffers).
pub open spec fn spec_max_alignment(reqs: Seq<BufferMemoryRequirements>) -> int
    decreases reqs.len(),
{
    if reqs.len() == 0 {
        0
    } else {
        let rest = spec_max_alignment(reqs.drop_last());
        if reqs.last().alignment > rest {
            reqs.last().alignment as int
        } else {
            rest
        }
    }
}

/// The intersection of the buffers' memory-type compatibility masks.
pub open spec fn spec_and_mask(reqs: Seq<BufferMemoryRequirements>) -> u32
    decreases reqs.len(),
{
    if reqs.len() == 0 {
        0xffff_ffffu32
    } else {
        spec_and_mask(reqs.drop_last()) & reqs.last().memory_type_bits
    }
}

/// `size` rounded up to the nearest multiple of `align`: a size that is
/// already a multiple stays as it is.
pub open spec fn spec_round_up(size: int, align: int) -> int
    recommends
        align > 0,
{
    if size % align == 0 {
        size
    } else {
        size + align - size % align
    }
}

/// Byte offset of buffer `n` in the running-sum layout with common alignment
/// `align`; at `n == reqs.len()` this is the total allocation size.
pub open spec fn spec_offset(reqs: Seq<BufferMemoryRequirements>, align: int, n: int) -> int
    decreases n,
{
    if n <= 0 {
        0
    } else {
        spec_offset(reqs, align, n - 1) + spec_round_up(reqs[n - 1].size as int, align)
    }
}

/// Whether the whole layout fits the 64-bit byte-size domain.
pub open spec fn plan_fits(reqs: Seq<BufferMemoryRequirements>) -> bool {
    spec_offset(reqs, spec_max_alignment(reqs), reqs.len() as int) <= u64::MAX
}

/// Whether memory type `j` of `types` can serve the batch: its bit is set in
/// the compatibility mask and its property flags include every required flag.
pub open spec fn type_suitable(filter: u32, required: u32, types: Seq<u32>, j: int) -> bool {
    &&& 0 <= j < types.len()
    &&& j < 32
    &&& (filter & (1u32 << (j as u32))) != 0
    &&& (types[j] & required) == required
}

/// Selects the lowest-index memory type whose bit is set in `type_filter` and
/// whose property flags contain all of `required_properties`, as the device
/// lists them in `memory_types`. Returns `None` when no type qualifies, which
/// the caller must treat as a configuration error.
pub fn find_memory_type(
    type_filter: u32,
    required_properties: u32,
    memory_types: &Vec<u32>,
) -> (r: Option<u32>)
    requires
        memory_types@.len() <= 32,
    ensures
        match r {
            Some(i) => {
                &&& type_suitable(type_filter, required_properties, memory_types@, i as int)
                &&& forall|j: int|
                    0 <= j < i ==> !type_suitable(
                        type_filter,
                        required_properties,
                        memory_types@,
                        j,
                    )
            },
            None => forall|j: int|
                0 <= j < memory_types@.len() ==> !type_suitable(
                    type_filter,
                    required_properties,
                    memory_types@,
                    j,
                ),
        },
{
    let mut i: usize = 0;
    while i < memory_types.len()
        invariant
            i <= memory_types@.len(),
            memory_types@.len() <= 32,
            forall|j: int|
                0 <= j < i ==> !type_suitable(
                    type_filter,
                    required_properties,
                    memory_types@,
                    j,
                ),
        decreases memory_types@.len() - i,
    {
        let bit: u32 = 1u32 << (i as u32);
        if (type_filter & bit) != 0
            && (memory_types[i] & required_properties) == required_properties {
            return Some(i as u32);
        }
        i = i + 1;
    }
    None
}

/// Plans one allocation for the batch. On success the plan holds the exact
/// running-sum layout: `offsets[i]` is the sum of the first `i` rounded sizes,
/// `total_size` the sum of all of them, `alignment` the maximum of the
/// buffers' alignments, `memory_type_bits` the intersection of their masks and
/// `memory_type_index` the lowest suitable type. `SizeOverflow` is returned
/// exactly when the layout does not fit; otherwise `NoCompatibleMemoryType`
/// exactly when no device memory type serves the whole batch.
pub fn plan_allocation(
    reqs: &Vec<BufferMemoryRequirements>,
    memory_types: &Vec<u32>,
    required_properties: u32,
) -> (r: Result<AllocationPlan, AllocationError>)
    requires
        forall|i: int|
            0 <= i < reqs@.len() ==> is_pow2((#[trigger] reqs@[i]).alignment as int),
        memory_types@.len() <= 32,
    ensures
        match r {
            Ok(plan) => {
                &&& plan_fits(reqs@)
                &&& plan.alignment == spec_max_alignment(reqs@)
                &&& plan.memory_type_bits == spec_and_mask(reqs@)
                &&& plan.offsets@.len() == reqs@.len()
                &&& forall|i: int|
                    0 <= i < reqs@.len() ==> #[trigger] plan.offsets@[i] == spec_offset(
                        reqs@,
                        spec_max_alignment(reqs@),
                        i,
                    )
                &&& plan.total_size == spec_offset(
                    reqs@,
                    spec_max_alignment(reqs@),
                    reqs@.len() as int,
                )
                &&& type_suitable(
                    spec_and_mask(reqs@),
                    required_properties,
                    memory_types@,
                    plan.memory_type_index as int,
                )
                &&& forall|j: int|
                    0 <= j < plan.memory_type_index ==> !type_suitable(
                        spec_and_mask(reqs@),
                        required_properties,
                        memory_types@,
                        j,
                    )
            },
            Err(AllocationError::SizeOverflow) => !plan_fits(reqs@),
            Err(AllocationError::NoCompatibleMemoryType) => {
                &&& plan_fits(reqs@)
                &&& forall|j: int|
                    0 <= j < memory_types@.len() ==> !type_suitable(
                        spec_and_mask(reqs@),
                        required_properties,
                        memory_types@,
                        j,
                    )
            },
        },
{
    let n = reqs.len();
    let mut alignment: u64 = 0;
    let mut mask: u32 = 0xffff_ffffu32;
    let mut i: usize = 0;
    while i < n
        invariant
            n == reqs@.len(),
            i <= n,
            alignment == spec_max_alignment(reqs@.subrange(0, i as int)),
            mask == spec_and_mask(reqs@.subrange(0, i as int)),
        decreases n - i,
    {
        let ghost pre = reqs@.subrange(0, i as int);
        if reqs[i].alignment > alignment {
            alignment = reqs[i].alignment;
        }
        mask = mask & reqs[i].memory_type_bits;
        i = i + 1;
        proof {
            let cur = reqs@.subrange(0, i as int);
            assert(cur.drop_last() =~= pre);
            assert(cur.last() == reqs@[i - 1]);
        }
    }
    proof {
        assert(reqs@.subrange(0, n as int) =~= reqs@);
    }

    let ghost a = spec_max_alignment(reqs@);
    proof {
        if n > 0 {
            lemma_max_alignment_is_some_element(reqs@);
            assert(alignment >= 1) by {
                let w = choose|w: int|
                    0 <= w < reqs@.len() && spec_max_alignment(reqs@) == reqs@[w].alignment;
                lemma_pow2_at_least_one(reqs@[w].alignment as int);
            }
        }
    }

    let mut offsets: Vec<u64> = Vec::new();
    let mut total: u64 = 0;
    let mut i: usize = 0;
    while i < n
        invariant
            n == reqs@.len(),
            i <= n,
            n > 0 ==> alignment >= 1,
            a == spec_max_alignment(reqs@),
            alignment == a,
            forall|k: int|
                0 <= k < reqs@.len() ==> is_pow2((#[trigger] reqs@[k]).alignment as int),
            offsets@.len() == i,
            forall|k: int|
                0 <= k < i ==> #[trigger] offsets@[k] == spec_offset(reqs@, a, k),
            total == spec_offset(reqs@, a, i as int),
        decreases n - i,
    {
        offsets.push(total);
        let size = reqs[i].size;
        let rem = size % alignment;
        let rounded: u64;
        if rem == 0 {
            rounded = size;
        } else {
            let pad = alignment - rem;
            if size > u64::MAX - pad {
                proof {
                    assert(spec_offset(reqs@, a, i + 1) > u64::MAX);
                    lemma_offset_monotone(reqs@, a, i + 1, reqs@.len() as int);
                }
                return Err(AllocationError::SizeOverflow);
            }
            rounded = size + pad;
        }
        if total > u64::MAX - rounded {
            proof {
                assert(spec_offset(reqs@, a, i + 1) > u64::MAX);
                lemma_offset_monotone(reqs@, a, i + 1, reqs@.len() as int);
            }
            return Err(AllocationError::SizeOverflow);
        }
        total = total + rounded;
        i = i + 1;
    }

    match find_memory_type(mask, required_properties, memory_types) {
        Some(memory_type_index) => Ok(AllocationPlan {
            offsets,
            total_size: total,
            memory_type_index,
            alignment,
            memory_type_bits: mask,
        }),
        None => Err(AllocationError::NoCompatibleMemoryType),
    }
}

/// A nonempty batch's maximum alignment is one of its alignments.
proof fn lemma_max_alignment_is_some_element(reqs: Seq<BufferMemoryRequirements>)
    requires
        reqs.len() > 0,
    ensures
        exists|w: int| 0 <= w < reqs.len() && spec_max_alignment(reqs) == reqs[w].alignment,
    decreases reqs.len(),
{
    if reqs.len() == 1 {
        assert(spec_max_alignment(reqs.drop_last()) == 0);
        assert(reqs.last() == reqs[0]);
        assert(spec_max_alignment(reqs) == reqs[0].alignment);
    } else {
        let rest = reqs.drop_last();
        if reqs.last().alignment > spec_max_alignment(rest) {
            assert(spec_max_alignment(reqs) == reqs[reqs.len() - 1].alignment);
        } else {
            lemma_max_alignment_is_some_element(rest);
            let w = choose|w: int|
                0 <= w < rest.len() && spec_max_alignment(rest) == rest[w].alignment;
            assert(spec_max_alignment(reqs) == reqs[w].alignment);
        }
    }
}

/// Powers of two are at least one.
proof fn lemma_pow2_at_least_one(a: int)
    requires
        is_pow2(a),
    ensures
        a >= 1,
{
    reveal(is_pow2);
}

/// Every buffer's alignment is bounded by the batch maximum.
proof fn lemma_alignment_le_max(reqs: Seq<BufferMemoryRequirements>, i: int)
    requires
        0 <= i < reqs.len(),
    ensures
        reqs[i].alignment <= spec_max_alignment(reqs),
    decreases reqs.len(),
{
    if i < reqs.len() - 1 {
        lemma_alignment_le_max(reqs.drop_last(), i);
    }
}

/// A larger power of two is a multiple of a smaller one.
proof fn lemma_pow2_divides(a: int, b: int)
    requires
        is_pow2(a),
        is_pow2(b),
        a <= b,
    ensures
        b % a == 0,
    decreases b,
{
    reveal(is_pow2);
    assert(a >= 1);
    assert(b >= 1);
    if a == b {
        lemma_mod_multiples_basic(1, a);
        assert(b == 1 * a);
    } else if a == 1 {
        lemma_mod_multiples_basic(b, 1);
        assert(b == b * 1);
    } else {
        assert(a > 1);
        assert(a % 2 == 0 && is_pow2(a / 2));
        assert(b > 1);
        assert(b % 2 == 0 && is_pow2(b / 2));
        assert(a / 2 <= b / 2);
        assert(1 <= b / 2 < b);
        lemma_pow2_divides(a / 2, b / 2);
        let k = (b / 2) / (a / 2);
        lemma_fundamental_div_mod(b / 2, a / 2);
        assert((b / 2) % (a / 2) == 0);
        assert(b / 2 == (a / 2) * k + 0);
        assert(b == (a / 2) * k * 2) by (nonlinear_arith)
            requires
                b % 2 == 0,
                b / 2 == (a / 2) * k + 0,
        {
        }
        assert(b == k * a) by (nonlinear_arith)
            requires
                b == (a / 2) * k * 2,
                a % 2 == 0,
        {
        }
        lemma_mod_multiples_basic(k, a);
    }
}

/// Rounding up to a positive alignment yields the nearest multiple at or
/// above the size, overshooting by less than the alignment itself.
proof fn lemma_round_up_properties(s: int, a: int)
    requires
        s >= 0,
        a > 0,
    ensures
        spec_round_up(s, a) % a == 0,
        s <= spec_round_up(s, a) < s + a,
{
    lemma_fundamental_div_mod(s, a);
    let q = s / a;
    if s % a == 0 {
        assert(spec_round_up(s, a) == s);
    } else {
        assert(spec_round_up(s, a) == (q + 1) * a) by (nonlinear_arith)
            requires
                s == a * q + s % a,
                s % a != 0,
                spec_round_up(s, a) == s + a - s % a,
        {
        }
        lemma_mod_multiples_basic(q + 1, a);
    }
}

/// Sums of multiples of `a` are multiples of `a`.
proof fn lemma_mod_add_zero(x: int, y: int, a: int)
    requires
        a > 0,
        x % a == 0,
        y % a == 0,
        x >= 0,
        y >= 0,
    ensures
        (x + y) % a == 0,
{
    lemma_fundamental_div_mod(x, a);
    lemma_fundamental_div_mod(y, a);
    lemma_mul_is_distributive_add(a, x / a, y / a);
    lemma_mod_multiples_basic(x / a + y / a, a);
}

/// A multiple of a multiple of `a` is a multiple of `a`.
proof fn lemma_mod_divides_transitive(x: int, big: int, a: int)
    requires
        a > 0,
        big > 0,
        x % big == 0,
        big % a == 0,
        x >= 0,
    ensures
        x % a == 0,
{
    lemma_fundamental_div_mod(x, big);
    lemma_fundamental_div_mod(big, a);
    let k = x / big;
    let m = big / a;
    assert(x == (m * k) * a) by (nonlinear_arith)
        requires
            x == big * k,
            big == a * m,
    {
    }
    lemma_mod_multiples_basic(m * k, a);
}

/// Offsets never decrease as more buffers are laid out.
proof fn lemma_offset_monotone(reqs: Seq<BufferMemoryRequirements>, a: int, n: int, m: int)
    requires
        a > 0,
        0 <= n <= m <= reqs.len(),
    ensures
        spec_offset(reqs, a, n) <= spec_offset(reqs, a, m),
    decreases m - n,
{
    if n < m {
        lemma_offset_monotone(reqs, a, n, m - 1);
        lemma_round_up_properties(reqs[m - 1].size as int, a);
    }
}

/// Every running-sum offset is a multiple of the common alignment.
proof fn lemma_offset_multiple_of_alignment(
    reqs: Seq<BufferMemoryRequirements>,
    a: int,
    n: int,
)
    requires
        a > 0,
        0 <= n <= reqs.len(),
    ensures
        spec_offset(reqs, a, n) % a == 0,
        spec_offset(reqs, a, n) >= 0,
    decreases n,
{
    if n > 0 {
        lemma_offset_multiple_of_alignment(reqs, a, n - 1);
        lemma_round_up_properties(reqs[n - 1].size as int, a);
        lemma_mod_add_zero(
            spec_offset(reqs, a, n - 1),
            spec_round_up(reqs[n - 1].size as int, a),
            a,
        );
    } else {
        lemma_mod_multiples_basic(0, a);
    }
}

/// Law of the allocator: in the planned layout every buffer's offset is a
/// multiple of that buffer's own alignment (and of the common alignment), and
/// each buffer's byte range ends at or before the next one begins.
pub proof fn lemma_allocation_offsets_aligned_and_disjoint(
    reqs: Seq<BufferMemoryRequirements>,
)
    requires
        forall|i: int| 0 <= i < reqs.len() ==> is_pow2((#[trigger] reqs[i]).alignment as int),
    ensures
        forall|i: int|
            0 <= i < reqs.len() ==> #[trigger] spec_offset(reqs, spec_max_alignment(reqs), i)
                % spec_max_alignment(reqs) == 0,
        forall|i: int|
            0 <= i < reqs.len() ==> #[trigger] spec_offset(reqs, spec_max_alignment(reqs), i)
                % (reqs[i].alignment as int) == 0,
        forall|i: int|
            0 <= i < reqs.len() ==> #[trigger] spec_offset(reqs, spec_max_alignment(reqs), i)
                + reqs[i].size <= spec_offset(reqs, spec_max_alignment(reqs), i + 1),
{
    let a = spec_max_alignment(reqs);
    if reqs.len() == 0 {
        return ;
    }
    lemma_max_alignment_is_some_element(reqs);
    let w = choose|w: int| 0 <= w < reqs.len() && a == reqs[w].alignment;
    lemma_pow2_at_least_one(reqs[w].alignment as int);
    assert forall|i: int|
        0 <= i < reqs.len() implies #[trigger] spec_offset(reqs, a, i) % a == 0 by {
        lemma_offset_multiple_of_alignment(reqs, a, i);
    }
    assert forall|i: int|
        0 <= i < reqs.len() implies #[trigger] spec_offset(reqs, a, i)
        % (reqs[i].alignment as int) == 0 by {
        lemma_offset_multiple_of_alignment(reqs, a, i);
        lemma_alignment_le_max(reqs, i);
        lemma_pow2_at_least_one(reqs[i].alignment as int);
        lemma_pow2_divides(reqs[i].alignment as int, a);
        lemma_mod_divides_transitive(spec_offset(reqs, a, i), a, reqs[i].alignment as int);
    }
    assert forall|i: int|
        0 <= i < reqs.len() implies #[trigger] spec_offset(reqs, a, i) + reqs[i].size
        <= spec_offset(reqs, a, i + 1) by {
        lemma_round_up_properties(reqs[i].size as int, a);
    }
}

} // verus!
