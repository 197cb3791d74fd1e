//! Several plots behind one farm.
//!
//! Consensus limits the size of a single plot, so any amount of disk space is
//! served by a group of single-plot farms. This module plans the group,
//! follows its construction step by step and holds the finished group.

use crate::plot_sizes::{get_plot_sizes, planned_sizes, plot_count};
use crate::supervision::{Supervision, SupervisionView};
use vstd::prelude::*;

verus! {

/// Feature switches that every farm of the group is built with.
#[derive(Clone, Copy, Debug, PartialEq, Eq, Structural)]
pub struct Options {
    /// Archived segments come from the DSN; no local archiving is started.
    pub enable_dsn_archiving: bool,
    pub enable_dsn_sync: bool,
    pub enable_farming: bool,
}

/// What one single-plot farm is built from, as far as the group decides it.
#[derive(Debug)]
pub struct SinglePlotFarmPlan {
    /// Position of the plot in the group, also its identifier.
    pub plot_index: usize,
    /// Number of pieces the plot can hold.
    pub max_piece_count: u64,
    /// Name of the plot's directory, relative to the group's base directory.
    /// Plot and metadata live in the same directory.
    pub directory_name: String,
    pub enable_farming: bool,
    pub enable_dsn_archiving: bool,
    pub enable_dsn_sync: bool,
}

/// The character of a decimal digit.
pub open spec fn digit_char(digit: nat) -> char
    recommends
        digit < 10,
{
    if digit == 0 {
        '0'
    } else if digit == 1 {
        '1'
    } else if digit == 2 {
        '2'
    } else if digit == 3 {
        '3'
    } else if digit == 4 {
        '4'
    } else if digit == 5 {
        '5'
    } else if digit == 6 {
        '6'
    } else if digit == 7 {
        '7'
    } else if digit == 8 {
        '8'
    } else {
        '9'
    }
}

/// Decimal notation of a number, without leading zeros.
pub open spec fn decimal(number: nat) -> Seq<char>
    decreases number,
{
    if number < 10 {
        seq![digit_char(number)]
    } else {
        decimal(number / 10).push(digit_char(number % 10))
    }
}

/// Directory name of the plot at `plot_index`: `plot` followed by the index.
pub open spec fn plot_directory_name(plot_index: nat) -> Seq<char> {
    seq!['p', 'l', 'o', 't'] + decimal(plot_index)
}

/// Formats the directory name of a plot with `format!`.
///
/// Trusted: the formatted text is `plot` followed by the index in decimal
/// notation, as `Display` for `usize` writes it.
#[verifier::external_body]
fn format_plot_directory(plot_index: usize) -> (name: String)
    ensures
        name@ == plot_directory_name(plot_index as nat),
{
    format!("plot{plot_index}")
}

impl SinglePlotFarmPlan {
    /// Whether this is the plan of the plot at `plot_index` with `plot_size`
    /// bytes, built with `options`, where a piece takes `piece_size` bytes.
    pub open spec fn is_plan_of(
        &self,
        options: Options,
        plot_index: int,
        plot_size: u64,
        piece_size: u64,
    ) -> bool {
        &&& self.plot_index == plot_index
        &&& self.max_piece_count == plot_size / piece_size
        &&& self.directory_name@ == plot_directory_name(plot_index as nat)
        &&& self.enable_farming == options.enable_farming
        &&& self.enable_dsn_archiving == options.enable_dsn_archiving
        &&& self.enable_dsn_sync == options.enable_dsn_sync
    }
}

/// Plans the farms of a group: one farm per plot of the allocation plan, in
/// the plan's order.
///
/// Each farm gets its position as index, the directory named after that
/// index, room for as many whole pieces as fit into its plot, and the group's
/// feature switches.
pub fn plan_farms(
    options: &Options,
    allocated_space: u64,
    max_plot_size: u64,
    piece_size: u64,
) -> (plans: Vec<SinglePlotFarmPlan>)
    requires
        max_plot_size > 0,
        piece_size > 0,
        plot_count(allocated_space as int, max_plot_size as int) <= usize::MAX,
    ensures
        plans@.len() == planned_sizes(allocated_space, max_plot_size).len(),
        forall|i: int|
            0 <= i < plans@.len() ==> (#[trigger] plans@[i]).is_plan_of(
                *options,
                i,
                planned_sizes(allocated_space, max_plot_size)[i],
                piece_size,
            ),
{
    let plot_sizes = get_plot_sizes(allocated_space, max_plot_size);
    let mut plans: Vec<SinglePlotFarmPlan> = Vec::new();
    let mut plot_index: usize = 0;
    while plot_index < plot_sizes.len()
        invariant
            piece_size > 0,
            plot_index <= plot_sizes@.len(),
            plans@.len() == plot_index,
            forall|i: int|
                0 <= i < plans@.len() ==> (#[trigger] plans@[i]).is_plan_of(
                    *options,
                    i,
                    plot_sizes@[i],
                    piece_size,
                ),
        decreases plot_sizes@.len() - plot_index,
    {
        plans.push(
            SinglePlotFarmPlan {
                plot_index,
                max_piece_count: plot_sizes[plot_index] / piece_size,
                directory_name: format_plot_directory(plot_index),
                enable_farming: options.enable_farming,
                enable_dsn_archiving: options.enable_dsn_archiving,
                enable_dsn_sync: options.enable_dsn_sync,
            },
        );
        plot_index = plot_index + 1;
    }
    plans
}

/// Gathers the farms that were constructed side by side.
///
/// Construction of the group succeeds only if every farm was constructed; the
/// farms then come back in the order of their plans. Otherwise the error of
/// one of the failed constructions is returned and nothing else: which one
/// is not fixed when several have failed.
pub fn collect_constructed<F, E>(results: Vec<Result<F, E>>) -> (outcome: Result<Vec<F>, E>)
    ensures
        match outcome {
            Ok(farms) => {
                &&& farms@.len() == results@.len()
                &&& forall|i: int| 0 <= i < results@.len() ==> results@[i] == Ok::<F, E>(farms@[i])
            },
            Err(error) => exists|i: int|
                0 <= i < results@.len() && results@[i] == Err::<F, E>(error),
        },
{
    let mut farms: Vec<F> = Vec::new();
    for result in it: results
        invariant
            it.seq() == results@,
            farms@.len() == it.index(),
            forall|i: int| 0 <= i < farms@.len() ==> results@[i] == Ok::<F, E>(farms@[i]),
    {
        match result {
            Ok(farm) => {
                farms.push(farm);
            },
            Err(error) => {
                return Err(error);
            },
        }
    }
    Ok(farms)
}

/// Step of the group's construction. A failure in any of them is fatal to
/// the whole construction.
#[derive(Clone, Copy, Debug, PartialEq, Eq, Structural)]
pub enum StartupPhase {
    /// Fetching the farmer metadata from the farming client.
    FarmerMetadata,
    /// Constructing the single-plot farms side by side.
    FarmConstruction,
    /// Starting the local archiving.
    ArchivingStart,
}

impl StartupPhase {
    /// What to tell the user when this step has failed.
    pub open spec fn failure_text(self) -> Seq<char> {
        match self {
            StartupPhase::FarmerMetadata => "Failed to fetch farmer metadata"@,
            StartupPhase::FarmConstruction => "Failed to construct a single plot farm"@,
            StartupPhase::ArchivingStart => "Failed to start archiving"@,
        }
    }

    /// What to tell the user when this step has failed.
    pub fn failure_message(&self) -> (message: &'static str)
        ensures
            message@ == self.failure_text(),
    {
        match self {
            StartupPhase::FarmerMetadata => "Failed to fetch farmer metadata",
            StartupPhase::FarmConstruction => "Failed to construct a single plot farm",
            StartupPhase::ArchivingStart => "Failed to start archiving",
        }
    }
}

/// Where the construction of a group stands.
///
/// The steps follow each other in a fixed order: the farmer metadata is
/// fetched once, then all farms are constructed, then local archiving is
/// started unless archiving comes from the DSN. The first failure aborts the
/// construction for good; no group is built from an aborted construction.
#[derive(Clone, Copy, Debug, PartialEq, Eq, Structural)]
pub enum Construction {
    FetchingMetadata,
    ConstructingFarms,
    StartingArchiving,
    /// Everything is in place; `archiving` tells whether local archiving runs.
    Ready { archiving: bool },
    /// The step `phase` has failed.
    Aborted { phase: StartupPhase },
}

/// What the caller reports to a construction once a step has ended.
#[derive(Clone, Copy, Debug, PartialEq, Eq, Structural)]
pub enum ConstructionEvent {
    MetadataFetched { succeeded: bool },
    /// `succeeded` holds if every single farm was constructed.
    FarmsConstructed { succeeded: bool },
    ArchivingStarted { succeeded: bool },
}

impl Construction {
    /// The construction after `event`. An event that does not belong to the
    /// current step changes nothing.
    pub open spec fn after(self, options: Options, event: ConstructionEvent) -> Construction {
        match (self, event) {
            (
                Construction::FetchingMetadata,
                ConstructionEvent::MetadataFetched { succeeded },
            ) => if succeeded {
                Construction::ConstructingFarms
            } else {
                Construction::Aborted { phase: StartupPhase::FarmerMetadata }
            },
            (
                Construction::ConstructingFarms,
                ConstructionEvent::FarmsConstructed { succeeded },
            ) => if !succeeded {
                Construction::Aborted { phase: StartupPhase::FarmConstruction }
            } else if options.enable_dsn_archiving {
                Construction::Ready { archiving: false }
            } else {
                Construction::StartingArchiving
            },
            (
                Construction::StartingArchiving,
                ConstructionEvent::ArchivingStarted { succeeded },
            ) => if succeeded {
                Construction::Ready { archiving: true }
            } else {
                Construction::Aborted { phase: StartupPhase::ArchivingStart }
            },
            _ => self,
        }
    }

    /// The construction after all of `events`, in their order.
    pub open spec fn after_all(self, options: Options, events: Seq<ConstructionEvent>) -> Construction
        decreases events.len(),
    {
        if events.len() == 0 {
            self
        } else {
            self.after_all(options, events.drop_last()).after(options, events.last())
        }
    }

    /// Whether the construction has ended, in success or failure.
    pub open spec fn is_settled(self) -> bool {
        self is Ready || self is Aborted
    }

    /// The step that has failed, if the construction was aborted.
    pub fn aborted_phase(self) -> (phase: Option<StartupPhase>)
        ensures
            phase == (match self {
                Construction::Aborted { phase } => Some(phase),
                _ => None,
            }),
    {
        match self {
            Construction::Aborted { phase } => Some(phase),
            _ => None,
        }
    }

    /// A construction starts with fetching the farmer metadata.
    pub fn begin() -> (construction: Construction)
        ensures
            construction == Construction::FetchingMetadata,
    {
        Construction::FetchingMetadata
    }

    /// Takes the construction one step further.
    pub fn advance(self, options: &Options, event: ConstructionEvent) -> (next: Construction)
        ensures
            next == self.after(*options, event),
    {
        match (self, event) {
            (
                Construction::FetchingMetadata,
                ConstructionEvent::MetadataFetched { succeeded },
            ) => if succeeded {
                Construction::ConstructingFarms
            } else {
                Construction::Aborted { phase: StartupPhase::FarmerMetadata }
            },
            (
                Construction::ConstructingFarms,
                ConstructionEvent::FarmsConstructed { succeeded },
            ) => if !succeeded {
                Construction::Aborted { phase: StartupPhase::FarmConstruction }
            } else if options.enable_dsn_archiving {
                Construction::Ready { archiving: false }
            } else {
                Construction::StartingArchiving
            },
            (
                Construction::StartingArchiving,
                ConstructionEvent::ArchivingStarted { succeeded },
            ) => if succeeded {
                Construction::Ready { archiving: true }
            } else {
                Construction::Aborted { phase: StartupPhase::ArchivingStart }
            },
            (construction, _) => construction,
        }
    }
}

/// With archiving from the DSN no local archiving is ever started: whatever
/// is reported to a construction, it never waits for local archiving and never
/// becomes ready with local archiving running.
pub proof fn lemma_dsn_archiving_starts_no_local_archiving(
    options: Options,
    events: Seq<ConstructionEvent>,
)
    requires
        options.enable_dsn_archiving,
    ensures
        !(Construction::FetchingMetadata.after_all(options, events) is StartingArchiving),
        Construction::FetchingMetadata.after_all(options, events) != (Construction::Ready {
            archiving: true,
        }),
    decreases events.len(),
{
    if events.len() > 0 {
        lemma_dsn_archiving_starts_no_local_archiving(options, events.drop_last());
    }
}

/// A group that archives locally becomes ready only with its archiving
/// started: a construction that is ready runs local archiving exactly if
/// archiving does not come from the DSN.
pub proof fn lemma_ready_archives_unless_dsn(options: Options, events: Seq<ConstructionEvent>)
    ensures
        Construction::FetchingMetadata.after_all(options, events) matches Construction::Ready {
            archiving,
        } ==> archiving == !options.enable_dsn_archiving,
        Construction::FetchingMetadata.after_all(options, events) is StartingArchiving
            ==> !options.enable_dsn_archiving,
    decreases events.len(),
{
    if events.len() > 0 {
        lemma_ready_archives_unless_dsn(options, events.drop_last());
    }
}

/// A construction that has ended stays as it is: neither a ready nor an
/// aborted construction reacts to further events.
pub proof fn lemma_settled_construction_is_final(
    construction: Construction,
    options: Options,
    events: Seq<ConstructionEvent>,
)
    requires
        construction.is_settled(),
    ensures
        construction.after_all(options, events) == construction,
    decreases events.len(),
{
    if events.len() > 0 {
        lemma_settled_construction_is_final(construction, options, events.drop_last());
    }
}

/// Looks for a farm that failed to plot a batch of pieces.
///
/// Every farm of the group plots every batch. The batch counts as plotted
/// only if the result is `None`, that is if no farm has failed. Otherwise the
/// position of one failed farm is returned: which one is not fixed when
/// several have failed.
pub fn find_plotting_failure<E>(results: &Vec<Result<(), E>>) -> (failure: Option<usize>)
    ensures
        failure is None <==> forall|i: int| 0 <= i < results@.len() ==> results@[i] is Ok,
        failure matches Some(position) ==> position < results@.len()
            && results@[position as int] is Err,
{
    let mut position: usize = 0;
    while position < results.len()
        invariant
            position <= results@.len(),
            forall|i: int| 0 <= i < position ==> results@[i] is Ok,
        decreases results@.len() - position,
    {
        if results[position].is_err() {
            return Some(position);
        }
        position = position + 1;
    }
    None
}

/// Piece lookup over all farms of a group.
pub struct SingleDiskFarmPieceGetter<G> {
    single_plot_farm_piece_getters: Vec<G>,
}

impl<G> View for SingleDiskFarmPieceGetter<G> {
    type V = Seq<G>;

    /// The piece getters of the farms, in the farms' order.
    closed spec fn view(&self) -> Seq<G> {
        self.single_plot_farm_piece_getters@
    }
}

impl<G> SingleDiskFarmPieceGetter<G> {
    pub fn new(single_plot_farm_piece_getters: Vec<G>) -> (getter: Self)
        ensures
            getter@ == single_plot_farm_piece_getters@,
    {
        SingleDiskFarmPieceGetter { single_plot_farm_piece_getters }
    }

    /// Looks a piece up in the farms with `lookup`, farm by farm.
    ///
    /// The first answer wins: a piece that is returned was found by one of the
    /// farms. The piece is reported missing only once every farm has been
    /// asked and none has it.
    pub fn get_piece<P>(&self, lookup: impl Fn(&G) -> Option<P>) -> (piece: Option<P>)
        requires
            forall|i: int| 0 <= i < self@.len() ==> call_requires(lookup, (&self@[i],)),
        ensures
            match piece {
                Some(found) => exists|i: int|
                    0 <= i < self@.len() && call_ensures(lookup, (&self@[i],), Some(found)),
                None => forall|i: int|
                    0 <= i < self@.len() ==> call_ensures(lookup, (&self@[i],), None::<P>),
            },
    {
        let mut position: usize = 0;
        while position < self.single_plot_farm_piece_getters.len()
            invariant
                position <= self@.len(),
                forall|i: int| 0 <= i < self@.len() ==> call_requires(lookup, (&self@[i],)),
                forall|i: int| 0 <= i < position ==> call_ensures(lookup, (&self@[i],), None::<P>),
            decreases self@.len() - position,
        {
            let answer = lookup(&self.single_plot_farm_piece_getters[position]);
            if answer.is_some() {
                return answer;
            }
            position = position + 1;
        }
        None
    }
}

/// A group of single-plot farms, with the local archiving that feeds them
/// if there is one. The group is what is run and waited on.
pub struct LegacyMultiPlotsFarm<F, A> {
    single_plot_farms: Vec<F>,
    archiving: Option<A>,
}

impl<F, A> LegacyMultiPlotsFarm<F, A> {
    /// The farms of the group, in the order of their plots.
    pub closed spec fn farms(&self) -> Seq<F> {
        self.single_plot_farms@
    }

    /// The local archiving of the group, if it has one.
    pub closed spec fn archiving(&self) -> Option<A> {
        self.archiving
    }

    /// Builds the group once its construction is ready.
    ///
    /// The construction tells whether local archiving was started; the group
    /// holds an archiving exactly in that case. An aborted or unfinished
    /// construction gives no group.
    pub fn new(construction: Construction, single_plot_farms: Vec<F>, archiving: Option<A>) -> (group:
        Self)
        requires
            construction == (Construction::Ready { archiving: archiving is Some }),
        ensures
            group.farms() == single_plot_farms@,
            group.archiving() == archiving,
    {
        LegacyMultiPlotsFarm { single_plot_farms, archiving }
    }

    /// The farms of the group.
    pub fn single_plot_farms(&self) -> (farms: &[F])
        ensures
            farms@ == self.farms(),
    {
        self.single_plot_farms.as_slice()
    }

    /// The piece lookup over all farms of the group: `piece_getter_of` gives
    /// the piece getter of one farm, and the lookup holds one per farm, in the
    /// farms' order.
    pub fn piece_getter<G>(&self, piece_getter_of: impl Fn(&F) -> G) -> (getter:
        SingleDiskFarmPieceGetter<G>)
        requires
            forall|i: int|
                0 <= i < self.farms().len() ==> call_requires(
                    piece_getter_of,
                    (&self.farms()[i],),
                ),
        ensures
            getter@.len() == self.farms().len(),
            forall|i: int|
                0 <= i < self.farms().len() ==> call_ensures(
                    piece_getter_of,
                    (&self.farms()[i],),
                    #[trigger] getter@[i],
                ),
    {
        let mut getters: Vec<G> = Vec::new();
        let mut position: usize = 0;
        while position < self.single_plot_farms.len()
            invariant
                position <= self.farms().len(),
                self.farms() == self.single_plot_farms@,
                getters@.len() == position,
                forall|i: int|
                    0 <= i < self.farms().len() ==> call_requires(
                        piece_getter_of,
                        (&self.farms()[i],),
                    ),
                forall|i: int|
                    0 <= i < position ==> call_ensures(
                        piece_getter_of,
                        (&self.farms()[i],),
                        #[trigger] getters@[i],
                    ),
            decreases self.farms().len() - position,
        {
            getters.push(piece_getter_of(&self.single_plot_farms[position]));
            position = position + 1;
        }
        SingleDiskFarmPieceGetter::new(getters)
    }

    /// Takes the group apart for running: its farms, its local archiving, and
    /// the supervision that decides when waiting on them ends.
    ///
    /// The supervision counts every farm of the group and knows of the
    /// archiving exactly if the group has one.
    pub fn wait(self) -> (running: (Vec<F>, Option<A>, Supervision))
        ensures
            running.0@ == self.farms(),
            running.1 == self.archiving(),
            running.2@ == SupervisionView::started(self.farms().len(), self.archiving() is Some),
    {
        let supervision = Supervision::new(
            self.single_plot_farms.len(),
            self.archiving.is_some(),
        );
        (self.single_plot_farms, self.archiving, supervision)
    }
}

} // verus!
