//! A publish-side collaborator with an explicit connection table.
//!
//! The transport's real publish side owns connection tables and delivery
//! queues that are out of this core's scope. This module supplies the
//! collaborator the core is specified against: it keeps the connection
//! table as plain data, records every release invocation in order, and
//! resolves a delivery attempt from the table alone. Per-receiver refusals
//! lower the delivered count; only a structurally impossible attempt fails.

use vstd::prelude::*;
use crate::pointer_offset::PointerOffset;
use crate::publish::{ConnectionFailure, PublishMgmt, ReleaseEvent};

verus! {

/// How many of the connections accept a delivery.
pub open spec fn count_accepting(conns: Seq<bool>) -> int
    decreases conns.len(),
{
    if conns.len() == 0 {
        0
    } else {
        count_accepting(conns.drop_last()) + if conns.last() {
            1int
        } else {
            0int
        }
    }
}

/// No more connections accept than there are connections.
pub proof fn lemma_count_accepting_bounds(conns: Seq<bool>)
    ensures
        0 <= count_accepting(conns) <= conns.len(),
    decreases conns.len(),
{
    if conns.len() > 0 {
        lemma_count_accepting_bounds(conns.drop_last());
    }
}

/// The publish-side collaborator the samples release their regions
/// through.
///
/// Holds one entry per connected receiver, saying whether that receiver
/// currently accepts a delivery, a flag for whether the transport
/// underneath is reachable at all, and the ordered record of every release
/// invocation it has seen. It is not internally synchronized: every sample
/// loaned against it must stay on the thread that obtained the loan.
pub struct Publisher {
    connections: Vec<bool>,
    reachable: bool,
    events: Vec<ReleaseEvent>,
}

impl Publisher {
    /// The connection table, one entry per connected receiver, as a
    /// mathematical view.
    pub closed spec fn spec_connections(&self) -> Seq<bool> {
        self.connections@
    }

    /// Whether the transport underneath the connections is reachable.
    pub closed spec fn spec_reachable(&self) -> bool {
        self.reachable
    }

    /// A collaborator with a reachable transport and no connected
    /// receivers yet.
    pub fn new() -> (r: Self)
        ensures
            r.spec_connections() == Seq::<bool>::empty(),
            r.spec_reachable(),
            r.log() == Seq::<ReleaseEvent>::empty(),
    {
        Publisher { connections: Vec::new(), reachable: true, events: Vec::new() }
    }

    /// Connects one more receiver; `accepts` says whether its queue
    /// currently takes a delivery.
    pub fn add_connection(&mut self, accepts: bool)
        ensures
            final(self).spec_connections() == old(self).spec_connections().push(accepts),
            final(self).spec_reachable() == old(self).spec_reachable(),
            final(self).log() == old(self).log(),
    {
        self.connections.push(accepts);
    }

    /// Marks the transport underneath the connections reachable or not.
    pub fn set_reachable(&mut self, reachable: bool)
        ensures
            final(self).spec_connections() == old(self).spec_connections(),
            final(self).spec_reachable() == reachable,
            final(self).log() == old(self).log(),
    {
        self.reachable = reachable;
    }

    /// How many receivers are connected.
    pub fn connection_count(&self) -> (r: usize)
        ensures
            r == self.spec_connections().len(),
    {
        self.connections.len()
    }

    /// The release invocations seen so far, oldest first.
    pub fn events(&self) -> (r: &Vec<ReleaseEvent>)
        ensures
            r@ == self.log(),
    {
        &self.events
    }
}

impl PublishMgmt for Publisher {
    /// The recorded release invocations, oldest first.
    closed spec fn log(&self) -> Seq<ReleaseEvent> {
        self.events@
    }

    /// A delivery fails structurally on an unreachable transport or an
    /// empty connection table; otherwise it reaches exactly the receivers
    /// that accept, and refusals are absorbed into the count.
    open spec fn deliver_outcome(&self) -> Result<usize, ConnectionFailure> {
        if !self.spec_reachable() {
            Result::Err(ConnectionFailure::TransportUnreachable)
        } else if self.spec_connections().len() == 0 {
            Result::Err(ConnectionFailure::NoViableConnections)
        } else {
            Result::Ok(count_accepting(self.spec_connections()) as usize)
        }
    }

    fn return_loaned_sample(&mut self, offset: PointerOffset)
        ensures
            final(self).spec_connections() == old(self).spec_connections(),
            final(self).spec_reachable() == old(self).spec_reachable(),
    {
        self.events.push(ReleaseEvent::Reclaim { offset: offset.value() });
    }

    fn send_impl(&mut self, offset: usize) -> (r: Result<usize, ConnectionFailure>)
        ensures
            final(self).spec_connections() == old(self).spec_connections(),
            final(self).spec_reachable() == old(self).spec_reachable(),
    {
        self.events.push(ReleaseEvent::Deliver { offset });
        if !self.reachable {
            return Result::Err(ConnectionFailure::TransportUnreachable);
        }
        if self.connections.len() == 0 {
            return Result::Err(ConnectionFailure::NoViableConnections);
        }
        let mut reached: usize = 0;
        let mut i: usize = 0;
        while i < self.connections.len()
            invariant
                self.connections@ == old(self).connections@,
                self.reachable == old(self).reachable,
                self.events@ == old(self).events@.push(ReleaseEvent::Deliver { offset }),
                i <= self.connections@.len(),
                reached == count_accepting(self.connections@.take(i as int)),
                0 <= reached <= i,
            decreases self.connections@.len() - i,
        {
            proof {
                assert(self.connections@.take(i + 1).drop_last() =~= self.connections@.take(
                    i as int,
                ));
                lemma_count_accepting_bounds(self.connections@.take(i + 1));
            }
            if self.connections[i] {
                reached = reached + 1;
            }
            i = i + 1;
        }
        proof {
            assert(self.connections@.take(self.connections@.len() as int) =~= self.connections@);
        }
        Result::Ok(reached)
    }
}

} // verus!
