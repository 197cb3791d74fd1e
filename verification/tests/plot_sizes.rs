use subspace_coordination::plot_sizes::{count_plots, get_plot_sizes};

#[test]
fn splits_into_full_plots_and_remainder() {
    assert_eq!(get_plot_sizes(100, 30), vec![30, 30, 30, 10]);
}

#[test]
fn exact_multiple_has_no_remainder_plot() {
    assert_eq!(get_plot_sizes(90, 30), vec![30, 30, 30]);
}

#[test]
fn allocation_below_the_cap_is_one_plot() {
    assert_eq!(get_plot_sizes(7, 30), vec![7]);
}

#[test]
fn allocation_of_the_cap_is_one_full_plot() {
    assert_eq!(get_plot_sizes(30, 30), vec![30]);
}

#[test]
fn empty_allocation_gives_no_plot() {
    assert_eq!(get_plot_sizes(0, 30), Vec::<u64>::new());
}

#[test]
fn cap_of_one_byte_gives_one_plot_per_byte() {
    assert_eq!(get_plot_sizes(5, 1), vec![1, 1, 1, 1, 1]);
}

#[test]
fn large_values_do_not_overflow() {
    let cap = u64::MAX / 2;
    assert_eq!(get_plot_sizes(u64::MAX, cap), vec![cap, cap, 1]);
    assert_eq!(get_plot_sizes(u64::MAX, u64::MAX), vec![u64::MAX]);
}

#[test]
fn plan_is_a_partition_of_the_allocation() {
    for allocated_space in 0..200u64 {
        for max_plot_size in 1..40u64 {
            let sizes = get_plot_sizes(allocated_space, max_plot_size);
            let expected_count = (allocated_space + max_plot_size - 1) / max_plot_size;
            assert_eq!(sizes.len() as u64, expected_count);
            assert_eq!(sizes.iter().sum::<u64>(), allocated_space);
            assert!(sizes.iter().all(|&size| 0 < size && size <= max_plot_size));
            if let Some((_, full)) = sizes.split_last() {
                assert!(full.iter().all(|&size| size == max_plot_size));
            }
        }
    }
}

#[test]
fn count_is_the_quotient_rounded_up() {
    assert_eq!(count_plots(100, 30), 4);
    assert_eq!(count_plots(90, 30), 3);
    assert_eq!(count_plots(0, 30), 0);
    assert_eq!(count_plots(1, 30), 1);
    assert_eq!(count_plots(u64::MAX, 1), u64::MAX);
    assert_eq!(count_plots(u64::MAX, 2), u64::MAX / 2 + 1);
}
