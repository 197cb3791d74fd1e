//! Splitting an allocation into plots.
//!
//! Consensus caps the size of a single plot, so an allocation of any size is
//! cut into as few plots as the cap allows: every plot but the last has
//! exactly the maximum size and the last one takes what is left.

use vstd::prelude::*;

verus! {

/// Number of plots needed for `allocated_space` bytes when no plot may exceed
/// `max_plot_size` bytes: the quotient rounded up.
pub open spec fn plot_count(allocated_space: int, max_plot_size: int) -> int
    recommends
        allocated_space >= 0,
        max_plot_size > 0,
{
    if allocated_space % max_plot_size == 0 {
        allocated_space / max_plot_size
    } else {
        allocated_space / max_plot_size + 1
    }
}

/// Size of the plot at position `index`: the maximum while a whole plot still
/// fits, otherwise what remains of the allocation.
pub open spec fn plot_size_at(allocated_space: int, max_plot_size: int, index: int) -> int {
    if (index + 1) * max_plot_size <= allocated_space {
        max_plot_size
    } else {
        allocated_space - index * max_plot_size
    }
}

/// The allocation plan: the sizes of all plots, in order.
pub open spec fn planned_sizes(allocated_space: u64, max_plot_size: u64) -> Seq<u64> {
    Seq::new(
        plot_count(allocated_space as int, max_plot_size as int) as nat,
        |index: int| plot_size_at(allocated_space as int, max_plot_size as int, index) as u64,
    )
}

/// Sum of a sequence of plot sizes.
pub open spec fn total_size(sizes: Seq<u64>) -> int
    decreases sizes.len(),
{
    if sizes.len() == 0 {
        0
    } else {
        total_size(sizes.drop_last()) + sizes.last()
    }
}

/// `count` plots of `max_plot_size` bytes each hold `count * max_plot_size`
/// bytes.
proof fn lemma_total_of_full_plots(sizes: Seq<u64>, max_plot_size: u64)
    requires
        forall|i: int| 0 <= i < sizes.len() ==> sizes[i] == max_plot_size,
    ensures
        total_size(sizes) == sizes.len() * max_plot_size,
    decreases sizes.len(),
{
    if sizes.len() > 0 {
        lemma_total_of_full_plots(sizes.drop_last(), max_plot_size);
        assert(sizes.len() * max_plot_size == (sizes.len() - 1) * max_plot_size + max_plot_size)
            by (nonlinear_arith);
    }
}

/// Shape of the allocation plan: as many full plots as the maximum fits into
/// the allocation, followed by one plot for the remainder if there is one.
pub proof fn lemma_planned_sizes_shape(allocated_space: u64, max_plot_size: u64)
    requires
        max_plot_size > 0,
    ensures
        planned_sizes(allocated_space, max_plot_size).len() == allocated_space / max_plot_size + (
        if allocated_space % max_plot_size > 0 {
            1int
        } else {
            0int
        }),
        forall|i: int|
            0 <= i < allocated_space / max_plot_size ==> #[trigger] planned_sizes(
                allocated_space,
                max_plot_size,
            )[i] == max_plot_size,
        allocated_space % max_plot_size > 0 ==> planned_sizes(
            allocated_space,
            max_plot_size,
        )[allocated_space as int / max_plot_size as int] == allocated_space % max_plot_size,
        allocated_space == (allocated_space / max_plot_size) * max_plot_size + allocated_space
            % max_plot_size,
{
    let a = allocated_space as int;
    let m = max_plot_size as int;
    let full = a / m;
    let rest = a % m;
    let plan = planned_sizes(allocated_space, max_plot_size);
    assert(a == full * m + rest && 0 <= rest < m && 0 <= full) by (nonlinear_arith)
        requires
            a >= 0,
            m > 0,
            full == a / m,
            rest == a % m,
    ;
    assert forall|i: int| 0 <= i < full implies #[trigger] plan[i] == max_plot_size by {
        assert((i + 1) * m <= full * m) by (nonlinear_arith)
            requires
                i + 1 <= full,
                m > 0,
        ;
    }
    if rest > 0 {
        assert((full + 1) * m == full * m + m) by (nonlinear_arith);
    }
}

/// The allocation plan is a partition of the allocation: it has the rounded-up
/// quotient as its length, no plot is empty or larger than the maximum, all
/// plots but the last are full, and the sizes add up to the allocation.
pub proof fn lemma_planned_sizes_partition(allocated_space: u64, max_plot_size: u64)
    requires
        max_plot_size > 0,
    ensures
        planned_sizes(allocated_space, max_plot_size).len() == plot_count(
            allocated_space as int,
            max_plot_size as int,
        ),
        planned_sizes(allocated_space, max_plot_size).len() == 0 <==> allocated_space == 0,
        forall|i: int|
            0 <= i < planned_sizes(allocated_space, max_plot_size).len() ==> 0
                < #[trigger] planned_sizes(allocated_space, max_plot_size)[i] <= max_plot_size,
        forall|i: int|
            0 <= i < planned_sizes(allocated_space, max_plot_size).len() - 1
                ==> #[trigger] planned_sizes(allocated_space, max_plot_size)[i] == max_plot_size,
        total_size(planned_sizes(allocated_space, max_plot_size)) == allocated_space,
{
    let full = allocated_space as int / max_plot_size as int;
    let rest = allocated_space as int % max_plot_size as int;
    let plan = planned_sizes(allocated_space, max_plot_size);
    lemma_planned_sizes_shape(allocated_space, max_plot_size);
    assert(0 <= full && 0 <= rest < max_plot_size) by (nonlinear_arith)
        requires
            allocated_space >= 0,
            max_plot_size > 0,
            full == allocated_space as int / max_plot_size as int,
            rest == allocated_space as int % max_plot_size as int,
    ;
    if full == 0 {
        assert(full * max_plot_size == 0) by (nonlinear_arith)
            requires
                full == 0,
        ;
    } else {
        assert(full * max_plot_size >= max_plot_size) by (nonlinear_arith)
            requires
                full >= 1,
                max_plot_size > 0,
        ;
    }
    let head = plan.subrange(0, full);
    lemma_total_of_full_plots(head, max_plot_size);
    if rest == 0 {
        assert(plan =~= head);
    }
}

/// Number of plots that `allocated_space` bytes are split into.
pub fn count_plots(allocated_space: u64, max_plot_size: u64) -> (count: u64)
    requires
        max_plot_size > 0,
    ensures
        count == plot_count(allocated_space as int, max_plot_size as int),
{
    let full: u64 = allocated_space / max_plot_size;
    if allocated_space % max_plot_size == 0 {
        full
    } else {
        proof {
            // A remainder means that the plots are larger than one byte, so
            // there are fewer of them than bytes.
            assert(full < u64::MAX) by (nonlinear_arith)
                requires
                    full == allocated_space / max_plot_size,
                    allocated_space % max_plot_size != 0,
                    max_plot_size > 0,
                    allocated_space <= u64::MAX,
            ;
        }
        full + 1
    }
}

/// Splits `allocated_space` bytes into plots of at most `max_plot_size` bytes.
///
/// The result is the allocation plan: as few plots as the cap allows, all of
/// them full except possibly the last, adding up to exactly the allocation.
/// An empty allocation gives no plot.
pub fn get_plot_sizes(allocated_space: u64, max_plot_size: u64) -> (sizes: Vec<u64>)
    requires
        max_plot_size > 0,
        plot_count(allocated_space as int, max_plot_size as int) <= usize::MAX,
    ensures
        sizes@ == planned_sizes(allocated_space, max_plot_size),
        sizes@.len() == plot_count(allocated_space as int, max_plot_size as int),
        forall|i: int| 0 <= i < sizes@.len() ==> 0 < #[trigger] sizes@[i] <= max_plot_size,
        forall|i: int| 0 <= i < sizes@.len() - 1 ==> #[trigger] sizes@[i] == max_plot_size,
        total_size(sizes@) == allocated_space,
{
    let full: u64 = allocated_space / max_plot_size;
    let rest: u64 = allocated_space % max_plot_size;
    let ghost plan = planned_sizes(allocated_space, max_plot_size);
    proof {
        lemma_planned_sizes_shape(allocated_space, max_plot_size);
        lemma_planned_sizes_partition(allocated_space, max_plot_size);
    }
    let mut sizes: Vec<u64> = Vec::new();
    let mut filled: u64 = 0;
    while filled < full
        invariant
            filled <= full <= plan.len(),
            sizes@ == plan.subrange(0, filled as int),
            forall|i: int| 0 <= i < full ==> #[trigger] plan[i] == max_plot_size,
        decreases full - filled,
    {
        sizes.push(max_plot_size);
        filled = filled + 1;
    }
    if rest > 0 {
        sizes.push(rest);
    }
    sizes
}

} // verus!
