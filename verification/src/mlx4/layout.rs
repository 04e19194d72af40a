//! Packing of the ICM resources: each resource gets a region of its size;
//! larger regions come first, so that power-of-two regions stay aligned to
//! their own size and are packed without gaps.
use vstd::prelude::*;
use vstd::arithmetic::power2::{pow2, lemma_pow2_adds, lemma_pow2_strictly_increases, lemma_pow2_pos};
use vstd::arithmetic::div_mod::{lemma_add_mod_noop, lemma_mod_multiples_basic};

verus! {

/// Whether the region `j` is placed before the region `i`: larger regions
/// first, and among equal sizes the higher index first.
pub open spec fn placed_before(sizes: Seq<u64>, i: int, j: int) -> bool {
    sizes[j] > sizes[i] || (sizes[j] == sizes[i] && j > i)
}

/// The sum of the sizes of the regions among the first `n` that are placed
/// before the region `i`.
pub open spec fn sum_placed_before(sizes: Seq<u64>, i: int, n: int) -> nat
    decreases n,
{
    if n <= 0 {
        0
    } else {
        sum_placed_before(sizes, i, n - 1) + (if placed_before(sizes, i, n - 1) {
            sizes[n - 1] as nat
        } else {
            0
        })
    }
}

/// The sum of the sizes of the first `n` regions.
pub open spec fn sum_sizes(sizes: Seq<u64>, n: int) -> nat
    decreases n,
{
    if n <= 0 {
        0
    } else {
        sum_sizes(sizes, n - 1) + sizes[n - 1] as nat
    }
}

/// The start of region `i`: the total size of the regions placed before it.
pub open spec fn layout_start(sizes: Seq<u64>, i: int) -> nat {
    sum_placed_before(sizes, i, sizes.len() as int)
}

/// The total size of all regions.
pub open spec fn layout_total(sizes: Seq<u64>) -> nat {
    sum_sizes(sizes, sizes.len() as int)
}

pub open spec fn is_power_of_two(n: int) -> bool {
    exists|e: nat| n == pow2(e)
}

proof fn lemma_sum_placed_before_le_sum(sizes: Seq<u64>, i: int, n: int)
    requires
        0 <= n <= sizes.len(),
    ensures
        sum_placed_before(sizes, i, n) + (if 0 <= i < n {
            sizes[i] as nat
        } else {
            0
        }) <= sum_sizes(sizes, n),
    decreases n,
{
    if n > 0 {
        lemma_sum_placed_before_le_sum(sizes, i, n - 1);
    }
}

proof fn lemma_sum_placed_before_mono(sizes: Seq<u64>, i: int, j: int, n: int)
    requires
        0 <= n <= sizes.len(),
        0 <= i < sizes.len(),
        0 <= j < sizes.len(),
        placed_before(sizes, i, j),
    ensures
        sum_placed_before(sizes, j, n) + (if j < n {
            sizes[j] as nat
        } else {
            0
        }) <= sum_placed_before(sizes, i, n),
    decreases n,
{
    if n > 0 {
        lemma_sum_placed_before_mono(sizes, i, j, n - 1);
    }
}

proof fn lemma_sum_placed_before_mod(sizes: Seq<u64>, i: int, n: int)
    requires
        0 <= n <= sizes.len(),
        0 <= i < sizes.len(),
        sizes[i] > 0,
        forall|j: int|
            0 <= j < sizes.len() && placed_before(sizes, i, j) ==> #[trigger] (sizes[j] as int
                % sizes[i] as int) == 0,
    ensures
        sum_placed_before(sizes, i, n) as int % sizes[i] as int == 0,
    decreases n,
{
    if n > 0 {
        lemma_sum_placed_before_mod(sizes, i, n - 1);
        let a = sum_placed_before(sizes, i, n - 1) as int;
        let b = if placed_before(sizes, i, n - 1) {
            sizes[n - 1] as int
        } else {
            0
        };
        assert(b % sizes[i] as int == 0) by {
            if !placed_before(sizes, i, n - 1) {
                lemma_mod_multiples_basic(0, sizes[i] as int);
            }
        }
        lemma_add_mod_noop(a, b, sizes[i] as int);
        lemma_mod_multiples_basic(0, sizes[i] as int);
        assert(0 * (sizes[i] as int) == 0);
    } else {
        lemma_mod_multiples_basic(0, sizes[i] as int);
        assert(0 * (sizes[i] as int) == 0);
    }
}

proof fn lemma_pow2_divides(a: int, b: int)
    requires
        is_power_of_two(a),
        is_power_of_two(b),
        a >= b,
    ensures
        b > 0,
        a % b == 0,
{
    let ea = choose|e: nat| a == pow2(e);
    let eb = choose|e: nat| b == pow2(e);
    lemma_pow2_pos(eb);
    if ea < eb {
        lemma_pow2_strictly_increases(ea, eb);
    }
    let d = (ea - eb) as nat;
    lemma_pow2_adds(d, eb);
    assert(ea == d + eb);
    lemma_mod_multiples_basic(pow2(d) as int, b);
}

/// The regions of the layout lie inside `[0, total)` and do not overlap.
pub proof fn lemma_layout_disjoint(sizes: Seq<u64>, i: int, j: int)
    requires
        0 <= i < sizes.len(),
        0 <= j < sizes.len(),
    ensures
        layout_start(sizes, i) + sizes[i] <= layout_total(sizes),
        i != j ==> (layout_start(sizes, i) + sizes[i] <= layout_start(sizes, j)
            || layout_start(sizes, j) + sizes[j] <= layout_start(sizes, i)),
{
    lemma_sum_placed_before_le_sum(sizes, i, sizes.len() as int);
    if i != j {
        if placed_before(sizes, i, j) {
            lemma_sum_placed_before_mono(sizes, i, j, sizes.len() as int);
        } else {
            assert(placed_before(sizes, j, i));
            lemma_sum_placed_before_mono(sizes, j, i, sizes.len() as int);
        }
    }
}

/// When all region sizes are powers of two, every region starts at a
/// multiple of its own size.
pub proof fn lemma_layout_aligned(sizes: Seq<u64>, i: int)
    requires
        0 <= i < sizes.len(),
        forall|j: int| 0 <= j < sizes.len() ==> is_power_of_two(#[trigger] sizes[j] as int),
    ensures
        layout_start(sizes, i) as int % sizes[i] as int == 0,
{
    assert forall|j: int|
        0 <= j < sizes.len() && placed_before(sizes, i, j) implies #[trigger] (sizes[j] as int
        % sizes[i] as int) == 0 by {
        lemma_pow2_divides(sizes[j] as int, sizes[i] as int);
    }
    lemma_pow2_divides(sizes[i] as int, sizes[i] as int);
    lemma_sum_placed_before_mod(sizes, i, sizes.len() as int);
}

/// The total of the region sizes, or `None` when it does not fit in a `u64`.
fn checked_total(sizes: &Vec<u64>) -> (r: Option<u64>)
    ensures
        r matches Some(t) ==> t == layout_total(sizes@),
        r is None ==> layout_total(sizes@) > u64::MAX,
{
    let mut total: u64 = 0;
    let mut k: usize = 0;
    while k < sizes.len()
        invariant
            k <= sizes.len(),
            total == sum_sizes(sizes@, k as int),
        decreases sizes.len() - k,
    {
        if total > u64::MAX - sizes[k] {
            proof {
                lemma_sum_sizes_mono(sizes@, k as int + 1, sizes.len() as int);
            }
            return None;
        }
        total = total + sizes[k];
        k = k + 1;
    }
    Some(total)
}

proof fn lemma_sum_sizes_mono(sizes: Seq<u64>, m: int, n: int)
    requires
        0 <= m <= n <= sizes.len(),
    ensures
        sum_sizes(sizes, m) <= sum_sizes(sizes, n),
    decreases n - m,
{
    if m < n {
        lemma_sum_sizes_mono(sizes, m, n - 1);
    }
}

/// Places the regions: the result holds the start of each region and the
/// total size, or `None` when the total does not fit in a `u64`.
pub fn icm_layout(sizes: &Vec<u64>) -> (r: Option<(Vec<u64>, u64)>)
    ensures
        r is None <==> layout_total(sizes@) > u64::MAX,
        r matches Some((starts, total)) ==> {
            &&& total == layout_total(sizes@)
            &&& starts.len() == sizes.len()
            &&& forall|i: int| 0 <= i < sizes.len() ==> starts[i] == layout_start(sizes@, i)
        },
{
    let total = match checked_total(sizes) {
        Some(t) => t,
        None => return None,
    };
    let mut starts: Vec<u64> = Vec::new();
    let mut i: usize = 0;
    while i < sizes.len()
        invariant
            i <= sizes.len(),
            total == layout_total(sizes@),
            starts.len() == i,
            forall|k: int| 0 <= k < i ==> starts[k] == layout_start(sizes@, k),
        decreases sizes.len() - i,
    {
        let mut start: u64 = 0;
        let mut j: usize = 0;
        while j < sizes.len()
            invariant
                i < sizes.len(),
                j <= sizes.len(),
                total == layout_total(sizes@),
                start == sum_placed_before(sizes@, i as int, j as int),
            decreases sizes.len() - j,
        {
            proof {
                lemma_sum_placed_before_le_sum(sizes@, i as int, j as int + 1);
                lemma_sum_sizes_mono(sizes@, j as int + 1, sizes.len() as int);
            }
            if sizes[j] > sizes[i] || (sizes[j] == sizes[i] && j > i) {
                start = start + sizes[j];
            }
            j = j + 1;
        }
        starts.push(start);
        i = i + 1;
    }
    Some((starts, total))
}

} // verus!
