//! Bound on simultaneous disk-heavy work.
//!
//! Farms that share a disk take a permit before they allocate or initialize
//! their plot, so that no more than a fixed number of them do so at a time.
//! The semaphore counts the permits; whoever finds none free waits outside
//! and tries again after a release.

use vstd::prelude::*;

verus! {

/// Number of farms of a group that may allocate or initialize their plot at
/// a time. A somewhat arbitrary number (the disk may be a RAID or anything),
/// but at least not unbounded.
pub const SINGLE_DISK_CONCURRENCY: usize = 16;

/// The permits of a semaphore: how many there are and how many are held.
pub struct PermitsView {
    pub limit: nat,
    pub held: nat,
}

/// What can happen to a semaphore.
pub enum PermitOp {
    /// Somebody asks for a permit.
    Acquire,
    /// A holder gives its permit back.
    Release,
}

impl PermitsView {
    /// Never are more permits held than there are.
    pub open spec fn wf(self) -> bool {
        self.held <= self.limit
    }

    /// Number of free permits.
    pub open spec fn available(self) -> nat {
        (self.limit - self.held) as nat
    }

    /// A permit is granted exactly while one is free.
    pub open spec fn grants(self) -> bool {
        self.held < self.limit
    }

    /// The permits after `op`. A request that is not granted changes nothing,
    /// and neither does a release when nothing is held.
    pub open spec fn after(self, op: PermitOp) -> PermitsView {
        match op {
            PermitOp::Acquire => if self.grants() {
                PermitsView { limit: self.limit, held: self.held + 1 }
            } else {
                self
            },
            PermitOp::Release => if self.held > 0 {
                PermitsView { limit: self.limit, held: (self.held - 1) as nat }
            } else {
                self
            },
        }
    }

    /// The permits after all of `ops`, in their order.
    pub open spec fn after_all(self, ops: Seq<PermitOp>) -> PermitsView
        decreases ops.len(),
    {
        if ops.len() == 0 {
            self
        } else {
            self.after_all(ops.drop_last()).after(ops.last())
        }
    }
}

/// Counting semaphore for the farms on one disk.
#[derive(Debug)]
pub struct SingleDiskSemaphore {
    limit: usize,
    held: usize,
}

impl View for SingleDiskSemaphore {
    type V = PermitsView;

    closed spec fn view(&self) -> PermitsView {
        PermitsView { limit: self.limit as nat, held: self.held as nat }
    }
}

impl SingleDiskSemaphore {
    /// A semaphore with `limit` permits, all of them free.
    pub fn new(limit: usize) -> (semaphore: SingleDiskSemaphore)
        ensures
            semaphore@ == (PermitsView { limit: limit as nat, held: 0 }),
            semaphore@.wf(),
    {
        SingleDiskSemaphore { limit, held: 0 }
    }

    /// Number of permits.
    pub fn limit(&self) -> (limit: usize)
        ensures
            limit == self@.limit,
    {
        self.limit
    }

    /// Number of permits that are held.
    pub fn held(&self) -> (held: usize)
        ensures
            held == self@.held,
    {
        self.held
    }

    /// Number of free permits.
    pub fn available(&self) -> (available: usize)
        requires
            self@.wf(),
        ensures
            available == self@.available(),
    {
        self.limit - self.held
    }

    /// Takes a permit if one is free.
    ///
    /// Returns whether the permit was granted. It is granted exactly if fewer
    /// permits are held than the limit; a caller that was refused waits for a
    /// release and asks again.
    pub fn try_acquire(&mut self) -> (granted: bool)
        requires
            old(self)@.wf(),
        ensures
            granted == old(self)@.grants(),
            final(self)@ == old(self)@.after(PermitOp::Acquire),
            final(self)@.wf(),
    {
        if self.held < self.limit {
            self.held = self.held + 1;
            true
        } else {
            false
        }
    }

    /// Gives a permit back, which frees it for whoever asks next.
    pub fn release(&mut self)
        requires
            old(self)@.wf(),
            old(self)@.held > 0,
        ensures
            final(self)@ == old(self)@.after(PermitOp::Release),
            final(self)@.held == old(self)@.held - 1,
            final(self)@.wf(),
            final(self)@.grants(),
    {
        self.held = self.held - 1;
    }
}

/// The limit holds at all times: whatever is asked of a semaphore and in
/// whatever order, its limit stays what it was and never are more permits held
/// than the limit.
pub proof fn lemma_limit_is_never_exceeded(permits: PermitsView, ops: Seq<PermitOp>)
    requires
        permits.wf(),
    ensures
        permits.after_all(ops).wf(),
        permits.after_all(ops).limit == permits.limit,
    decreases ops.len(),
{
    if ops.len() > 0 {
        lemma_limit_is_never_exceeded(permits, ops.drop_last());
    }
}

/// A release makes room for the next request: after a holder has given its
/// permit back, the next request for a permit is granted.
pub proof fn lemma_release_serves_next_request(permits: PermitsView)
    requires
        permits.wf(),
        permits.held > 0,
    ensures
        permits.after(PermitOp::Release).grants(),
        permits.after(PermitOp::Release).after(PermitOp::Acquire).held == permits.held,
{
}

} // verus!
