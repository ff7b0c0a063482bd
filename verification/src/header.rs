//! Fixed metadata written alongside the payload in a loaned region.

use vstd::prelude::*;

verus! {

/// Message metadata stored in the loaned region next to the payload.
///
/// The publish side fills it in at loan time; from then on it is immutable
/// from the caller's perspective, and the samples expose it read-only. It
/// records when the message was created and which sending endpoint loaned
/// the region.
#[derive(Clone, Copy, PartialEq, Eq, Structural, Debug)]
pub struct Header {
    time_stamp: u64,
    publisher_id: u64,
}

impl Header {
    /// The creation time, as a mathematical view.
    pub closed spec fn spec_time_stamp(self) -> u64 {
        self.time_stamp
    }

    /// The sending endpoint's identifier, as a mathematical view.
    pub closed spec fn spec_publisher_id(self) -> u64 {
        self.publisher_id
    }

    /// Builds the metadata the publish side writes at loan time.
    pub fn new(time_stamp: u64, publisher_id: u64) -> (r: Self)
        ensures
            r.spec_time_stamp() == time_stamp,
            r.spec_publisher_id() == publisher_id,
    {
        Header { time_stamp, publisher_id }
    }

    /// When the message was created.
    pub fn time_stamp(&self) -> (r: u64)
        ensures
            r == self.spec_time_stamp(),
    {
        self.time_stamp
    }

    /// Which sending endpoint loaned the region.
    pub fn publisher_id(&self) -> (r: u64)
        ensures
            r == self.spec_publisher_id(),
    {
        self.publisher_id
    }
}

} // verus!
