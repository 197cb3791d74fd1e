use subspace_coordination::legacy_multi_plots_farm::{
    collect_constructed, find_plotting_failure, plan_farms, Construction, ConstructionEvent,
    LegacyMultiPlotsFarm, Options, SingleDiskFarmPieceGetter, StartupPhase,
};
use subspace_coordination::supervision::{Stopped, WaitStep};

fn options(enable_dsn_archiving: bool) -> Options {
    Options { enable_dsn_archiving, enable_dsn_sync: false, enable_farming: true }
}

#[test]
fn plans_one_farm_per_plot() {
    let plans = plan_farms(&options(false), 100, 30, 4);
    assert_eq!(plans.len(), 4);
    let piece_counts: Vec<u64> = plans.iter().map(|plan| plan.max_piece_count).collect();
    assert_eq!(piece_counts, vec![7, 7, 7, 2]);
    for (position, plan) in plans.iter().enumerate() {
        assert_eq!(plan.plot_index, position);
        assert_eq!(plan.directory_name, format!("plot{}", position));
        assert!(plan.enable_farming);
        assert!(!plan.enable_dsn_archiving);
        assert!(!plan.enable_dsn_sync);
    }
}

#[test]
fn plot_directories_are_named_by_index() {
    let plans = plan_farms(&options(false), 13, 1, 1);
    assert_eq!(plans[0].directory_name, "plot0");
    assert_eq!(plans[9].directory_name, "plot9");
    assert_eq!(plans[10].directory_name, "plot10");
    assert_eq!(plans[12].directory_name, "plot12");
}

#[test]
fn piece_count_is_plot_size_in_whole_pieces() {
    let plans = plan_farms(&options(true), 10_000, 8_192, 4_096);
    assert_eq!(plans.len(), 2);
    assert_eq!(plans[0].max_piece_count, 2);
    assert_eq!(plans[1].max_piece_count, 0);
    assert!(plans[1].enable_dsn_archiving);
}

#[test]
fn plans_carry_the_feature_switches() {
    let switches =
        Options { enable_dsn_archiving: true, enable_dsn_sync: true, enable_farming: false };
    let plans = plan_farms(&switches, 3, 2, 1);
    assert_eq!(plans.len(), 2);
    assert!(plans.iter().all(|plan| plan.enable_dsn_archiving
        && plan.enable_dsn_sync
        && !plan.enable_farming));
}

#[test]
fn empty_allocation_plans_no_farm() {
    assert!(plan_farms(&options(false), 0, 30, 4).is_empty());
}

#[test]
fn all_constructed_farms_are_collected_in_order() {
    let results: Vec<Result<&str, String>> = vec![Ok("a"), Ok("b"), Ok("c")];
    assert_eq!(collect_constructed(results), Ok(vec!["a", "b", "c"]));
}

#[test]
fn no_farm_collects_to_no_farm() {
    let results: Vec<Result<u8, String>> = vec![];
    assert_eq!(collect_constructed(results), Ok(vec![]));
}

#[test]
fn one_failed_construction_fails_the_group() {
    let results: Vec<Result<u8, String>> = vec![Ok(1), Err("disk full".to_string()), Ok(3)];
    assert_eq!(collect_constructed(results), Err("disk full".to_string()));
}

#[test]
fn several_failed_constructions_give_one_of_their_errors() {
    let results: Vec<Result<u8, &str>> = vec![Err("first"), Ok(2), Err("second")];
    let error = collect_constructed(results).unwrap_err();
    assert!(error == "first" || error == "second");
}

#[test]
fn construction_with_local_archiving_runs_all_steps() {
    let switches = options(false);
    let mut construction = Construction::begin();
    assert_eq!(construction, Construction::FetchingMetadata);
    construction =
        construction.advance(&switches, ConstructionEvent::MetadataFetched { succeeded: true });
    assert_eq!(construction, Construction::ConstructingFarms);
    construction =
        construction.advance(&switches, ConstructionEvent::FarmsConstructed { succeeded: true });
    assert_eq!(construction, Construction::StartingArchiving);
    construction =
        construction.advance(&switches, ConstructionEvent::ArchivingStarted { succeeded: true });
    assert_eq!(construction, Construction::Ready { archiving: true });
}

#[test]
fn dsn_archiving_starts_no_local_archiving() {
    let switches = options(true);
    let construction = Construction::begin()
        .advance(&switches, ConstructionEvent::MetadataFetched { succeeded: true })
        .advance(&switches, ConstructionEvent::FarmsConstructed { succeeded: true });
    assert_eq!(construction, Construction::Ready { archiving: false });
    let later =
        construction.advance(&switches, ConstructionEvent::ArchivingStarted { succeeded: true });
    assert_eq!(later, Construction::Ready { archiving: false });
}

#[test]
fn each_step_aborts_on_failure() {
    let switches = options(false);
    let no_metadata = Construction::begin()
        .advance(&switches, ConstructionEvent::MetadataFetched { succeeded: false });
    assert_eq!(no_metadata, Construction::Aborted { phase: StartupPhase::FarmerMetadata });

    let no_farms = Construction::begin()
        .advance(&switches, ConstructionEvent::MetadataFetched { succeeded: true })
        .advance(&switches, ConstructionEvent::FarmsConstructed { succeeded: false });
    assert_eq!(no_farms, Construction::Aborted { phase: StartupPhase::FarmConstruction });

    let no_archiving = Construction::begin()
        .advance(&switches, ConstructionEvent::MetadataFetched { succeeded: true })
        .advance(&switches, ConstructionEvent::FarmsConstructed { succeeded: true })
        .advance(&switches, ConstructionEvent::ArchivingStarted { succeeded: false });
    assert_eq!(no_archiving, Construction::Aborted { phase: StartupPhase::ArchivingStart });
}

#[test]
fn aborted_construction_names_the_failed_step() {
    let switches = options(false);
    let begun = Construction::begin();
    assert_eq!(begun.aborted_phase(), None);
    let aborted =
        begun.advance(&switches, ConstructionEvent::MetadataFetched { succeeded: false });
    assert_eq!(aborted.aborted_phase(), Some(StartupPhase::FarmerMetadata));
    assert_eq!(Construction::Ready { archiving: true }.aborted_phase(), None);
    assert_eq!(StartupPhase::FarmerMetadata.failure_message(), "Failed to fetch farmer metadata");
    assert_eq!(
        StartupPhase::FarmConstruction.failure_message(),
        "Failed to construct a single plot farm"
    );
    assert_eq!(StartupPhase::ArchivingStart.failure_message(), "Failed to start archiving");
}

#[test]
fn aborted_construction_stays_aborted() {
    let switches = options(false);
    let aborted = Construction::begin()
        .advance(&switches, ConstructionEvent::MetadataFetched { succeeded: false });
    let later = aborted
        .advance(&switches, ConstructionEvent::MetadataFetched { succeeded: true })
        .advance(&switches, ConstructionEvent::FarmsConstructed { succeeded: true })
        .advance(&switches, ConstructionEvent::ArchivingStarted { succeeded: true });
    assert_eq!(later, aborted);
}

#[test]
fn events_out_of_turn_change_nothing() {
    let switches = options(false);
    let begun = Construction::begin();
    assert_eq!(
        begun.advance(&switches, ConstructionEvent::FarmsConstructed { succeeded: true }),
        begun
    );
    assert_eq!(
        begun.advance(&switches, ConstructionEvent::ArchivingStarted { succeeded: false }),
        begun
    );
    let constructing =
        begun.advance(&switches, ConstructionEvent::MetadataFetched { succeeded: true });
    assert_eq!(
        constructing.advance(&switches, ConstructionEvent::MetadataFetched { succeeded: false }),
        constructing
    );
}

#[test]
fn batch_is_plotted_if_no_farm_fails() {
    let results: Vec<Result<(), String>> = vec![Ok(()), Ok(()), Ok(())];
    assert_eq!(find_plotting_failure(&results), None);
    let none: Vec<Result<(), String>> = vec![];
    assert_eq!(find_plotting_failure(&none), None);
}

#[test]
fn failed_farm_is_found() {
    let results: Vec<Result<(), &str>> = vec![Ok(()), Ok(()), Err("no space"), Ok(())];
    assert_eq!(find_plotting_failure(&results), Some(2));
}

#[test]
fn one_of_several_failed_farms_is_found() {
    let results: Vec<Result<(), &str>> = vec![Ok(()), Err("a"), Err("b")];
    let position = find_plotting_failure(&results).unwrap();
    assert!(results[position].is_err());
}

#[test]
fn piece_is_found_in_any_farm() {
    let getter = SingleDiskFarmPieceGetter::new(vec![vec![1u64, 2], vec![3], vec![4, 5]]);
    let find = |wanted: u64| {
        getter.get_piece(|pieces: &Vec<u64>| {
            if pieces.contains(&wanted) {
                Some(wanted * 10)
            } else {
                None
            }
        })
    };
    assert_eq!(find(1), Some(10));
    assert_eq!(find(3), Some(30));
    assert_eq!(find(5), Some(50));
    assert_eq!(find(6), None);
}

#[test]
fn first_answer_wins() {
    let getter = SingleDiskFarmPieceGetter::new(vec!["a", "b", "c"]);
    let asked = std::cell::RefCell::new(Vec::new());
    let piece = getter.get_piece(|farm: &&str| {
        asked.borrow_mut().push(*farm);
        if *farm == "a" {
            None
        } else {
            Some(farm.to_uppercase())
        }
    });
    assert_eq!(piece, Some("B".to_string()));
    assert_eq!(*asked.borrow(), vec!["a", "b"]);
}

#[test]
fn no_farm_has_no_piece() {
    let getter = SingleDiskFarmPieceGetter::new(Vec::<u8>::new());
    assert_eq!(getter.get_piece(|_: &u8| Some(1u8)), None);
}

#[test]
fn group_holds_its_farms_in_order() {
    let group: LegacyMultiPlotsFarm<&str, ()> = LegacyMultiPlotsFarm::new(
        Construction::Ready { archiving: false },
        vec!["plot0", "plot1"],
        None,
    );
    assert_eq!(group.single_plot_farms(), &["plot0", "plot1"]);
}

#[test]
fn group_piece_getter_asks_every_farm() {
    let group: LegacyMultiPlotsFarm<Vec<u64>, &str> = LegacyMultiPlotsFarm::new(
        Construction::Ready { archiving: true },
        vec![vec![1, 2], vec![], vec![7]],
        Some("archiving"),
    );
    let getter = group.piece_getter(|farm: &Vec<u64>| farm.clone());
    let find = |wanted: u64| {
        getter.get_piece(|pieces: &Vec<u64>| pieces.iter().copied().find(|&piece| piece == wanted))
    };
    assert_eq!(find(7), Some(7));
    assert_eq!(find(2), Some(2));
    assert_eq!(find(3), None);
}

#[test]
fn waiting_without_archiving_follows_the_farms() {
    let group: LegacyMultiPlotsFarm<u8, ()> =
        LegacyMultiPlotsFarm::new(Construction::Ready { archiving: false }, vec![1, 2], None);
    let (farms, archiving, mut supervision) = group.wait();
    assert_eq!(farms, vec![1, 2]);
    assert_eq!(archiving, None);
    assert_eq!(supervision.running_farms(), 2);
    assert!(!supervision.has_archiving());
    assert!(!supervision.is_finished());
    assert!(!supervision.accepts(&Stopped::<String>::Archiving(Ok(()))));
    assert!(matches!(supervision.report(Stopped::<String>::Farm(Ok(()))), WaitStep::Pending));
    assert!(matches!(
        supervision.report(Stopped::<String>::Farm(Ok(()))),
        WaitStep::Finished(Ok(()))
    ));
}

#[test]
fn waiting_with_archiving_knows_of_it() {
    let group: LegacyMultiPlotsFarm<u8, &str> = LegacyMultiPlotsFarm::new(
        Construction::Ready { archiving: true },
        vec![1, 2, 3],
        Some("archiving"),
    );
    let (farms, archiving, supervision) = group.wait();
    assert_eq!(farms.len(), 3);
    assert_eq!(archiving, Some("archiving"));
    assert_eq!(supervision.running_farms(), 3);
    assert!(supervision.has_archiving());
}
