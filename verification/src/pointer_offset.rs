//! Relative addressing inside a shared-memory segment.

use vstd::prelude::*;

verus! {

/// Names a memory region by its distance from the shared segment's base.
///
/// Unlike a process-local address, the offset is valid identically in every
/// process that has the segment mapped. It carries no ownership of the region
/// it names: copying the offset is safe and duplicates nothing. Equality and
/// ordering are by the underlying offset value and are meaningful only within
/// one segment.
#[derive(Clone, Copy, PartialEq, Eq, Structural, Debug)]
pub struct PointerOffset {
    value: usize,
}

impl PointerOffset {
    /// The distance from the segment base, as a mathematical view.
    pub closed spec fn spec_value(self) -> usize {
        self.value
    }

    /// Wraps a distance from the segment base.
    ///
    /// Meant for the allocator that owns the segment: only it knows which
    /// offsets name loaned regions.
    pub fn new(value: usize) -> (r: Self)
        ensures
            r.spec_value() == value,
    {
        PointerOffset { value }
    }

    /// The distance from the segment base.
    pub fn value(&self) -> (r: usize)
        ensures
            r == self.spec_value(),
    {
        self.value
    }
}

impl PartialOrd for PointerOffset {
    /// Orders offsets by their distance from the segment base.
    fn partial_cmp(&self, other: &Self) -> (r: Option<core::cmp::Ordering>) {
        if self.value < other.value {
            Some(core::cmp::Ordering::Less)
        } else if self.value == other.value {
            Some(core::cmp::Ordering::Equal)
        } else {
            Some(core::cmp::Ordering::Greater)
        }
    }
}

impl vstd::std_specs::cmp::PartialOrdSpecImpl for PointerOffset {
    open spec fn obeys_partial_cmp_spec() -> bool {
        true
    }

    open spec fn partial_cmp_spec(&self, other: &Self) -> Option<core::cmp::Ordering> {
        if self.spec_value() < other.spec_value() {
            Some(core::cmp::Ordering::Less)
        } else if self.spec_value() == other.spec_value() {
            Some(core::cmp::Ordering::Equal)
        } else {
            Some(core::cmp::Ordering::Greater)
        }
    }
}

} // verus!
