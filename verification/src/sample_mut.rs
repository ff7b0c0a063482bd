//! The owned handle to a loaned shared-memory region.
//!
//! A sample is the single owning handle for one loaned region. Its
//! initialization state is part of its type: [`SampleMutUninit`] is the
//! write-only handle the loan path constructs, [`SampleMut`] is the
//! readable handle that only [`SampleMutUninit::write_payload`] can
//! produce. Reading a payload that was never written is therefore not
//! expressible, with no runtime check involved.
//!
//! Every operation that releases the region consumes the handle, so a
//! consumed handle cannot release it again. A handle must not simply go out
//! of scope: whoever does not send it calls `reclaim` on the publish side it
//! was loaned from, so that the region returns to the free list on every
//! path that does not send. Both types are `#[must_use]` to flag a handle
//! that is dropped on the spot.

use vstd::prelude::*;
use core::marker::PhantomData;
use crate::header::Header;
use crate::pointer_offset::PointerOffset;
use crate::publish::{ConnectionFailure, PublishMgmt, ReleaseEvent};

verus! {

/// A loaned, not-yet-written region: the state every sample starts in.
///
/// Constructed by the loan path, never directly by the caller that will
/// write the payload. The payload storage of type `M` is still
/// uninitialized, so the handle offers no way to read it; the single
/// sanctioned path onward is [`Self::write_payload`], which consumes this
/// handle and yields a [`SampleMut`] over the identical region.
#[must_use]
pub struct SampleMutUninit<M> {
    header: Header,
    offset_to_chunk: PointerOffset,
    payload_type: PhantomData<M>,
}

/// A loaned, written region, ready to be sent or still editable in place.
///
/// Only [`SampleMutUninit::write_payload`] constructs this type, so a value
/// of it always holds a written payload. It is consumed by [`Self::send`],
/// which hands the region to the publish side, or by [`Self::reclaim`],
/// which returns the region unsent to the free list.
#[must_use]
pub struct SampleMut<M> {
    header: Header,
    payload: M,
    offset_to_chunk: PointerOffset,
}

impl<M> SampleMutUninit<M> {
    /// The region's metadata, as a mathematical view.
    pub closed spec fn spec_header(&self) -> Header {
        self.header
    }

    /// The region's offset from the segment base, as a mathematical view.
    pub closed spec fn spec_offset(&self) -> PointerOffset {
        self.offset_to_chunk
    }

    /// Wraps a freshly loaned region into the uninitialized handle.
    ///
    /// Meant for the publish side's loan path: `header` is the metadata it
    /// wrote into the region and `offset_to_chunk` names the region inside
    /// the shared segment. The loan path must hand out at most one handle
    /// per loaned region.
    pub fn new(header: Header, offset_to_chunk: PointerOffset) -> (r: Self)
        ensures
            r.spec_header() == header,
            r.spec_offset() == offset_to_chunk,
    {
        SampleMutUninit { header, offset_to_chunk, payload_type: PhantomData }
    }

    /// A read-only view of the region's metadata.
    pub fn header(&self) -> (r: &Header)
        ensures
            *r == self.spec_header(),
    {
        &self.header
    }

    /// The offset naming the loaned region inside the shared segment.
    pub fn offset_to_chunk(&self) -> (r: PointerOffset)
        ensures
            r == self.spec_offset(),
    {
        self.offset_to_chunk
    }

    /// Writes the payload, turning the handle into an initialized sample
    /// over the very same region.
    ///
    /// This is the only path from the uninitialized to the initialized
    /// state. The region, its metadata and its offset are unchanged: the
    /// transition writes `value` into the already-loaned storage and
    /// re-wraps the region, it does not move or copy the payload into a
    /// different region. It cannot fail.
    pub fn write_payload(self, value: M) -> (r: SampleMut<M>)
        ensures
            r.spec_header() == self.spec_header(),
            r.spec_offset() == self.spec_offset(),
            r.spec_payload() == value,
    {
        SampleMut { header: self.header, payload: value, offset_to_chunk: self.offset_to_chunk }
    }

    /// Abandons the unwritten sample, returning its region to the free
    /// list.
    ///
    /// Exactly one reclaim invocation with this handle's offset reaches the
    /// publish side, and no delivery. Call this on every path that gives
    /// the handle up without writing and sending it.
    pub fn reclaim<P: PublishMgmt>(self, publisher: &mut P)
        ensures
            final(publisher).log() == old(publisher).log().push(
                ReleaseEvent::Reclaim { offset: self.spec_offset().spec_value() },
            ),
            final(publisher).deliver_outcome() == old(publisher).deliver_outcome(),
    {
        publisher.return_loaned_sample(self.offset_to_chunk);
    }
}

impl<M> SampleMut<M> {
    /// The region's metadata, as a mathematical view.
    pub closed spec fn spec_header(&self) -> Header {
        self.header
    }

    /// The written payload, as a mathematical view.
    pub closed spec fn spec_payload(&self) -> M {
        self.payload
    }

    /// The region's offset from the segment base, as a mathematical view.
    pub closed spec fn spec_offset(&self) -> PointerOffset {
        self.offset_to_chunk
    }

    /// A read-only view of the region's metadata.
    pub fn header(&self) -> (r: &Header)
        ensures
            *r == self.spec_header(),
    {
        &self.header
    }

    /// A read-only view of the written payload.
    pub fn payload(&self) -> (r: &M)
        ensures
            *r == self.spec_payload(),
    {
        &self.payload
    }

    /// A writable view of the written payload, for in-place edits before
    /// sending.
    ///
    /// Editing through the view changes neither the region's metadata nor
    /// its offset.
    pub fn payload_mut(&mut self) -> (r: &mut M)
        ensures
            *r == old(self).spec_payload(),
            final(self).spec_payload() == *final(r),
            final(self).spec_header() == old(self).spec_header(),
            final(self).spec_offset() == old(self).spec_offset(),
    {
        &mut self.payload
    }

    /// The offset naming the loaned region inside the shared segment.
    pub fn offset_to_chunk(&self) -> (r: PointerOffset)
        ensures
            r == self.spec_offset(),
    {
        self.offset_to_chunk
    }

    /// Sends the sample, handing its region to the publish side for
    /// delivery to all connected receivers.
    ///
    /// Returns how many receivers received the region, or a
    /// [`ConnectionFailure`] when delivery could not be attempted at all.
    /// Either way the handle is consumed and ownership of the region has
    /// passed to the publish side: the region's further fate is the
    /// collaborator's responsibility, and no reclaim follows from this
    /// handle.
    pub fn send<P: PublishMgmt>(self, publisher: &mut P) -> (r: Result<
        usize,
        ConnectionFailure,
    >)
        ensures
            final(publisher).log() == old(publisher).log().push(
                ReleaseEvent::Deliver { offset: self.spec_offset().spec_value() },
            ),
            r == old(publisher).deliver_outcome(),
    {
        publisher.send_impl(self.offset_to_chunk.value())
    }

    /// Abandons the written sample unsent, returning its region to the
    /// free list.
    ///
    /// The message is silently never delivered; no memory is lost. Exactly
    /// one reclaim invocation with this handle's offset reaches the publish
    /// side, and no delivery. Call this on every path that gives the handle
    /// up without sending it.
    pub fn reclaim<P: PublishMgmt>(self, publisher: &mut P)
        ensures
            final(publisher).log() == old(publisher).log().push(
                ReleaseEvent::Reclaim { offset: self.spec_offset().spec_value() },
            ),
            final(publisher).deliver_outcome() == old(publisher).deliver_outcome(),
    {
        publisher.return_loaned_sample(self.offset_to_chunk);
    }
}

} // verus!
