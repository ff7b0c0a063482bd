//! Mutable-message-lifecycle core of a zero-copy publish/subscribe transport.
//!
//! A sending endpoint loans a region of a shared-memory segment, receives it
//! wrapped as an uninitialized sample, writes the payload to obtain an
//! initialized sample over the identical region, and then either sends the
//! sample (handing the region to the publish side for delivery) or reclaims
//! it (returning the region to the free list). Regions are named by offsets
//! relative to the segment base, so the same name is valid in every process
//! that has the segment mapped.
//!
//! The two sample states are two distinct types, so reading a payload that
//! was never written is not expressible. Sending and reclaiming consume the
//! sample, so a region is released at most once; the lifecycle model in
//! [`lifecycle`] proves that every completed lifecycle releases it exactly
//! once.

pub mod header;
pub mod lifecycle;
pub mod pointer_offset;
pub mod publish;
pub mod publisher;
pub mod sample_mut;

pub use header::Header;
pub use pointer_offset::PointerOffset;
pub use publish::{ConnectionFailure, PublishMgmt, ReleaseEvent};
pub use publisher::Publisher;
pub use sample_mut::{SampleMut, SampleMutUninit};
