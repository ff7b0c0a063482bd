//! The publish-side boundary a sample releases its region through.

use vstd::prelude::*;
use crate::pointer_offset::PointerOffset;

verus! {

/// Why a delivery attempt could not be carried out at all.
///
/// Raised only by sending, and only for structural faults: a single
/// receiver's full or stale queue is not an error, it merely lowers the
/// delivered count.
#[derive(Clone, Copy, PartialEq, Eq, Structural, Debug)]
pub enum ConnectionFailure {
    /// The sending endpoint has no viable outbound connections at all.
    NoViableConnections,
    /// The transport mechanism underneath the connections is unreachable.
    TransportUnreachable,
}

/// One release of a loaned region, as the publish side records it.
///
/// Every sample resolves to exactly one such event: its region is either
/// reclaimed into the free list or delivered to the connected receivers.
#[derive(Clone, Copy, PartialEq, Eq, Structural, Debug)]
pub enum ReleaseEvent {
    /// The region at `offset` was returned unsent to the free list.
    Reclaim { offset: usize },
    /// The region at `offset` was handed over for delivery.
    Deliver { offset: usize },
}

/// What the samples require of the publish side they were loaned from.
///
/// The core consumes this boundary, it does not implement the transport
/// behind it: any collaborator must supply the two release operations, and
/// its history of release invocations is the log the operations append to.
/// The collaborator is not assumed to be internally synchronized, so every
/// sample loaned from it must stay on the thread that obtained the loan
/// until it is consumed.
pub trait PublishMgmt: Sized {
    /// The release invocations the collaborator has seen so far, oldest
    /// first.
    spec fn log(&self) -> Seq<ReleaseEvent>;

    /// What the next delivery attempt from the current state returns:
    /// the number of receivers reached, or a structural failure.
    spec fn deliver_outcome(&self) -> Result<usize, ConnectionFailure>;

    /// Returns the loaned region named by `offset` to the free list.
    ///
    /// Infallible at this layer: any internal fault is absorbed by the
    /// collaborator, never surfaced to the releasing sample, because the
    /// call runs on the sample's abandonment path. Returning a region to
    /// the free list touches no connection, so what the next delivery
    /// attempt would return is unchanged.
    fn return_loaned_sample(&mut self, offset: PointerOffset)
        ensures
            final(self).log() == old(self).log().push(
                ReleaseEvent::Reclaim { offset: offset.spec_value() },
            ),
            final(self).deliver_outcome() == old(self).deliver_outcome(),
    ;

    /// Makes the written region named by `offset` visible to the connected
    /// receivers.
    ///
    /// Returns how many receivers actually received it, or a
    /// [`ConnectionFailure`] when the attempt could not be carried out at
    /// all. Ownership of the region passes to the collaborator on the call,
    /// whether delivery succeeds or fails.
    fn send_impl(&mut self, offset: usize) -> (r: Result<usize, ConnectionFailure>)
        ensures
            final(self).log() == old(self).log().push(ReleaseEvent::Deliver { offset }),
            r == old(self).deliver_outcome(),
    ;
}

} // verus!
