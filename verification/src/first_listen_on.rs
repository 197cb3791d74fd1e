//! The rendezvous address that the farms of a group share.
//!
//! The farm that is first to bring up its network listener records the
//! addresses it listens on. Farms that start later find them and join the
//! first farm instead of bootstrapping on their own.

use vstd::prelude::*;

verus! {

/// Cell for the listen addresses of the first farm. It is empty until the
/// first offer and keeps that offer from then on.
#[derive(Debug)]
pub struct FirstListenOn<A> {
    addresses: Option<Vec<A>>,
}

impl<A> View for FirstListenOn<A> {
    type V = Option<Seq<A>>;

    /// The recorded addresses, if there are any yet.
    closed spec fn view(&self) -> Option<Seq<A>> {
        match self.addresses {
            Some(addresses) => Some(addresses@),
            None => None,
        }
    }
}

/// What a cell holds after `addresses` were offered to it: what it held
/// before if that was anything, else the offer.
pub open spec fn after_offer<A>(cell: Option<Seq<A>>, addresses: Seq<A>) -> Option<Seq<A>> {
    if cell is Some {
        cell
    } else {
        Some(addresses)
    }
}

/// What a cell holds after all of `offers`, in their order.
pub open spec fn after_offers<A>(cell: Option<Seq<A>>, offers: Seq<Seq<A>>) -> Option<Seq<A>>
    decreases offers.len(),
{
    if offers.len() == 0 {
        cell
    } else {
        after_offer(after_offers(cell, offers.drop_last()), offers.last())
    }
}

impl<A> FirstListenOn<A> {
    /// An empty cell.
    pub fn new() -> (cell: FirstListenOn<A>)
        ensures
            cell@ is None,
    {
        FirstListenOn { addresses: None }
    }

    /// The addresses of the first farm, once there are any.
    pub fn get(&self) -> (addresses: Option<&Vec<A>>)
        ensures
            match addresses {
                Some(recorded) => self@ == Some(recorded@),
                None => self@ is None,
            },
    {
        self.addresses.as_ref()
    }

    /// Offers the addresses that a farm listens on.
    ///
    /// The offer is recorded only if the cell is still empty, and the result
    /// tells whether it was. A cell that holds addresses keeps them.
    pub fn offer(&mut self, addresses: Vec<A>) -> (recorded: bool)
        ensures
            recorded == (old(self)@ is None),
            final(self)@ == after_offer(old(self)@, addresses@),
    {
        if self.addresses.is_none() {
            self.addresses = Some(addresses);
            true
        } else {
            false
        }
    }
}

/// Whoever offers first wins, and everybody else sees the winner's addresses:
/// after a first offer the cell holds it, whatever is offered later.
pub proof fn lemma_first_offer_stays<A>(first: Seq<A>, later: Seq<Seq<A>>)
    ensures
        after_offers(after_offer(None, first), later) == Some(first),
    decreases later.len(),
{
    if later.len() > 0 {
        lemma_first_offer_stays(first, later.drop_last());
    }
}

} // verus!
