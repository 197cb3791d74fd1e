//! Waiting on a running group of farms.
//!
//! All farms of a group run side by side, beside the local archiving if
//! there is one. The caller drives them and reports each one that stops; the
//! supervision decides whether waiting goes on or ends, and with what.

use vstd::prelude::*;

verus! {

/// What has stopped: one of the farms or the local archiving, each with the
/// result it stopped with.
pub enum Stopped<E> {
    Farm(Result<(), E>),
    Archiving(Result<(), E>),
}

/// Whether waiting goes on after a report.
pub enum WaitStep<E> {
    /// Something is still awaited.
    Pending,
    /// Waiting has ended with this result.
    Finished(Result<(), E>),
}

/// What the supervision of a group knows.
pub struct SupervisionView {
    /// Number of farms that have not stopped yet.
    pub running_farms: nat,
    /// Whether the group has local archiving.
    pub archiving: bool,
    /// Whether waiting has ended.
    pub finished: bool,
}

impl SupervisionView {
    /// The supervision of a group that has just been started.
    ///
    /// Without local archiving and without farms there is nothing to wait
    /// for; in every other case waiting begins.
    pub open spec fn started(farms: nat, archiving: bool) -> SupervisionView {
        SupervisionView { running_farms: farms, archiving, finished: farms == 0 && !archiving }
    }

    /// Whether `stopped` can be reported now: waiting has not ended, a farm
    /// stops only while one is running, archiving only if there is one.
    pub open spec fn accepts<E>(self, stopped: Stopped<E>) -> bool {
        &&& !self.finished
        &&& stopped is Farm ==> self.running_farms > 0
        &&& stopped is Archiving ==> self.archiving
    }

    /// The decision on `stopped`.
    ///
    /// An error ends waiting at once, with that error. With local archiving,
    /// farms and archiving race: whatever stops first ends waiting, also
    /// when it stopped cleanly. Without it, waiting ends cleanly when the
    /// last farm has stopped cleanly.
    pub open spec fn decide<E>(self, stopped: Stopped<E>) -> WaitStep<E> {
        match stopped {
            Stopped::Archiving(result) => WaitStep::Finished(result),
            Stopped::Farm(Err(error)) => WaitStep::Finished(Err(error)),
            Stopped::Farm(Ok(())) => if self.archiving || self.running_farms == 1 {
                WaitStep::Finished(Ok(()))
            } else {
                WaitStep::Pending
            },
        }
    }

    /// The supervision after `stopped` was reported.
    pub open spec fn after<E>(self, stopped: Stopped<E>) -> SupervisionView {
        SupervisionView {
            running_farms: if stopped is Farm {
                (self.running_farms - 1) as nat
            } else {
                self.running_farms
            },
            archiving: self.archiving,
            finished: self.decide(stopped) is Finished,
        }
    }

    /// The supervision after all of `reports`, in their order.
    pub open spec fn after_all<E>(self, reports: Seq<Stopped<E>>) -> SupervisionView
        decreases reports.len(),
    {
        if reports.len() == 0 {
            self
        } else {
            self.after_all(reports.drop_last()).after(reports.last())
        }
    }

    /// What waiting has come to after `reports`: the first decision that ends
    /// it. Nothing reported after that is looked at.
    pub open spec fn outcome<E>(self, reports: Seq<Stopped<E>>) -> WaitStep<E>
        decreases reports.len(),
    {
        if reports.len() == 0 {
            if self.finished {
                WaitStep::Finished(Ok(()))
            } else {
                WaitStep::Pending
            }
        } else {
            match self.outcome(reports.drop_last()) {
                WaitStep::Finished(result) => WaitStep::Finished(result),
                WaitStep::Pending => self.after_all(reports.drop_last()).decide(reports.last()),
            }
        }
    }
}

/// Decides when waiting on a running group ends.
pub struct Supervision {
    running_farms: usize,
    archiving: bool,
    finished: bool,
}

impl View for Supervision {
    type V = SupervisionView;

    closed spec fn view(&self) -> SupervisionView {
        SupervisionView {
            running_farms: self.running_farms as nat,
            archiving: self.archiving,
            finished: self.finished,
        }
    }
}

impl Supervision {
    /// Starts the supervision of `farms` farms, with or without local
    /// archiving.
    pub fn new(farms: usize, archiving: bool) -> (supervision: Supervision)
        ensures
            supervision@ == SupervisionView::started(farms as nat, archiving),
    {
        Supervision { running_farms: farms, archiving, finished: farms == 0 && !archiving }
    }

    /// Whether waiting has ended. A supervision that starts finished has
    /// ended cleanly: there was nothing to wait for.
    pub fn is_finished(&self) -> (finished: bool)
        ensures
            finished == self@.finished,
    {
        self.finished
    }

    /// Number of farms that have not stopped yet.
    pub fn running_farms(&self) -> (running: usize)
        ensures
            running == self@.running_farms,
    {
        self.running_farms
    }

    /// Whether the group has local archiving.
    pub fn has_archiving(&self) -> (archiving: bool)
        ensures
            archiving == self@.archiving,
    {
        self.archiving
    }

    /// Whether `stopped` can be reported now.
    pub fn accepts<E>(&self, stopped: &Stopped<E>) -> (accepted: bool)
        ensures
            accepted == self@.accepts(*stopped),
    {
        !self.finished && match stopped {
            Stopped::Farm(_) => self.running_farms > 0,
            Stopped::Archiving(_) => self.archiving,
        }
    }

    /// Reports that a farm or the local archiving has stopped and says
    /// whether waiting goes on.
    pub fn report<E>(&mut self, stopped: Stopped<E>) -> (step: WaitStep<E>)
        requires
            old(self)@.accepts(stopped),
        ensures
            step == old(self)@.decide(stopped),
            final(self)@ == old(self)@.after(stopped),
            stopped matches Stopped::Farm(Err(error)) ==> step == WaitStep::Finished(
                Err::<(), E>(error),
            ),
    {
        let step = match stopped {
            Stopped::Archiving(result) => WaitStep::Finished(result),
            Stopped::Farm(Err(error)) => {
                self.running_farms = self.running_farms - 1;
                WaitStep::Finished(Err(error))
            },
            Stopped::Farm(Ok(())) => {
                let last = self.running_farms == 1;
                self.running_farms = self.running_farms - 1;
                if self.archiving || last {
                    WaitStep::Finished(Ok(()))
                } else {
                    WaitStep::Pending
                }
            },
        };
        self.finished = match &step {
            WaitStep::Pending => false,
            WaitStep::Finished(_) => true,
        };
        step
    }
}

/// A decision that ends waiting stands: whatever is reported after it, the
/// outcome stays the same.
pub proof fn lemma_outcome_is_final<E>(
    supervision: SupervisionView,
    reports: Seq<Stopped<E>>,
    ended: int,
)
    requires
        0 <= ended <= reports.len(),
        supervision.outcome(reports.take(ended)) is Finished,
    ensures
        supervision.outcome(reports) == supervision.outcome(reports.take(ended)),
    decreases reports.len(),
{
    if ended == reports.len() {
        assert(reports.take(ended) =~= reports);
    } else {
        assert(reports.drop_last().take(ended) =~= reports.take(ended));
        lemma_outcome_is_final(supervision, reports.drop_last(), ended);
    }
}

/// A failing farm ends waiting at once with its error, whatever else is
/// still running: if waiting is pending when a farm stops with an error, that
/// error is the outcome, also after anything reported later.
pub proof fn lemma_failing_farm_ends_wait<E>(
    supervision: SupervisionView,
    reports: Seq<Stopped<E>>,
    failed: int,
    error: E,
)
    requires
        0 <= failed < reports.len(),
        reports[failed] == Stopped::Farm(Err::<(), E>(error)),
        supervision.outcome(reports.take(failed)) is Pending,
    ensures
        supervision.outcome(reports) == WaitStep::Finished(Err::<(), E>(error)),
{
    let upto = reports.take(failed + 1);
    assert(upto.drop_last() =~= reports.take(failed));
    lemma_outcome_is_final(supervision, reports, failed + 1);
}

/// The reports of farms that stop one after the other with `results`.
pub open spec fn farm_reports<E>(results: Seq<Result<(), E>>) -> Seq<Stopped<E>> {
    Seq::new(results.len(), |i: int| Stopped::Farm(results[i]))
}

/// While every farm so far has stopped cleanly and there is no local
/// archiving, the supervision has counted the farms down and waits on.
proof fn lemma_clean_farms_count_down<E>(farms: nat, results: Seq<Result<(), E>>)
    requires
        results.len() <= farms,
        forall|i: int| 0 <= i < results.len() ==> results[i] is Ok,
    ensures
        SupervisionView::started(farms, false).after_all(farm_reports(results)).running_farms
            == farms - results.len(),
        !SupervisionView::started(farms, false).after_all(farm_reports(results)).archiving,
        SupervisionView::started(farms, false).outcome(farm_reports(results)) == (if results.len()
            == farms {
            WaitStep::Finished(Ok::<(), E>(()))
        } else {
            WaitStep::Pending
        }),
    decreases results.len(),
{
    if results.len() > 0 {
        let earlier = results.drop_last();
        assert(farm_reports(results).drop_last() =~= farm_reports(earlier));
        lemma_clean_farms_count_down(farms, earlier);
    }
}

/// Without local archiving waiting depends on the farms alone: it ends with
/// the error of the first farm that fails, or cleanly once every farm has
/// stopped cleanly, and goes on until then.
pub proof fn lemma_wait_follows_farms<E>(farms: nat, results: Seq<Result<(), E>>)
    requires
        results.len() <= farms,
    ensures
        (forall|i: int| 0 <= i < results.len() ==> results[i] is Ok) ==> SupervisionView::started(
            farms,
            false,
        ).outcome(farm_reports(results)) == (if results.len() == farms {
            WaitStep::Finished(Ok::<(), E>(()))
        } else {
            WaitStep::Pending
        }),
        forall|first: int|
            0 <= first < results.len() && results[first] is Err && (forall|i: int|
                0 <= i < first ==> results[i] is Ok) ==> SupervisionView::started(
                farms,
                false,
            ).outcome(farm_reports(results)) == WaitStep::Finished(results[first]),
{
    let supervision = SupervisionView::started(farms, false);
    let reports = farm_reports(results);
    if forall|i: int| 0 <= i < results.len() ==> results[i] is Ok {
        lemma_clean_farms_count_down(farms, results);
    }
    assert forall|first: int|
        0 <= first < results.len() && results[first] is Err && (forall|i: int|
            0 <= i < first ==> results[i] is Ok) implies supervision.outcome(reports)
        == WaitStep::Finished(results[first]) by {
        let clean = results.take(first);
        lemma_clean_farms_count_down(farms, clean);
        assert(reports.take(first) =~= farm_reports(clean));
        lemma_failing_farm_ends_wait(supervision, reports, first, results[first]->Err_0);
    }
}

} // verus!
